use m5atom_auto_keyboard::usb::{DeviceRegistry, HidInstance, UsbError};

fn keyboard_instance(id: u8) -> HidInstance {
    HidInstance { instance_id: id, report_id: 0, descriptor: vec![1, 2, 3, id] }
}

#[test]
fn install_succeeds_once() {
    let mut reg = DeviceRegistry::new();
    assert!(!reg.is_installed());
    assert_eq!(reg.install(vec![keyboard_instance(0)], false), Ok(()));
    assert!(reg.is_installed());
}

#[test]
fn second_install_fails_with_already_installed() {
    let mut reg = DeviceRegistry::new();
    assert_eq!(reg.install(vec![keyboard_instance(0)], true), Ok(()));
    assert_eq!(
        reg.install(vec![keyboard_instance(1)], false),
        Err(UsbError::AlreadyInstalled)
    );
    // the first install is untouched
    assert_eq!(reg.lookup_descriptor(0), Some(&vec![1, 2, 3, 0]));
    assert_eq!(reg.lookup_descriptor(1), None);
}

#[test]
fn install_after_uninstall_succeeds_again() {
    let mut reg = DeviceRegistry::new();
    assert_eq!(reg.install(vec![keyboard_instance(0)], false), Ok(()));
    assert_eq!(reg.uninstall(), Ok(()));
    assert_eq!(reg.install(vec![keyboard_instance(1)], false), Ok(()));
    assert_eq!(reg.lookup_descriptor(1), Some(&vec![1, 2, 3, 1]));
}

#[test]
fn overflowing_install_is_rejected_and_records_nothing() {
    let mut reg = DeviceRegistry::new();
    let instances: Vec<HidInstance> = (0..5).map(keyboard_instance).collect();
    assert_eq!(reg.install(instances, false), Err(UsbError::ConfigurationOverflow));
    assert!(!reg.is_installed());
}

#[test]
fn lookup_finds_each_instance_by_id() {
    let mut reg = DeviceRegistry::new();
    let instances = vec![keyboard_instance(2), keyboard_instance(7)];
    assert_eq!(reg.install(instances, false), Ok(()));
    assert_eq!(reg.lookup_descriptor(2), Some(&vec![1, 2, 3, 2]));
    assert_eq!(reg.lookup_descriptor(7), Some(&vec![1, 2, 3, 7]));
    assert_eq!(reg.lookup_descriptor(3), None);
}

#[test]
fn lookup_before_install_finds_nothing() {
    let reg = DeviceRegistry::new();
    assert_eq!(reg.lookup_descriptor(0), None);
}

#[test]
fn lookup_after_uninstall_finds_nothing() {
    let mut reg = DeviceRegistry::new();
    assert_eq!(reg.install(vec![keyboard_instance(0), keyboard_instance(1)], false), Ok(()));
    assert_eq!(reg.uninstall(), Ok(()));
    for id in 0..=255u8 {
        assert_eq!(reg.lookup_descriptor(id), None);
    }
}

#[test]
fn uninstall_without_install_fails_with_not_installed() {
    let mut reg = DeviceRegistry::new();
    assert_eq!(reg.uninstall(), Err(UsbError::NotInstalled));
    assert_eq!(reg.install(vec![keyboard_instance(0)], false), Ok(()));
    assert_eq!(reg.uninstall(), Ok(()));
    assert_eq!(reg.uninstall(), Err(UsbError::NotInstalled));
}

#[test]
fn descriptor_set_is_kept_for_the_installed_device() {
    let mut reg = DeviceRegistry::new();
    assert_eq!(reg.descriptor_set(), None);
    assert_eq!(reg.install(vec![keyboard_instance(0)], false), Ok(()));
    let config = reg.descriptor_set().unwrap();
    assert_eq!(config.len(), 34); // 9 + 25
    assert_eq!(u16::from_le_bytes([config[2], config[3]]), 34);
}
