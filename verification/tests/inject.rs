use m5atom_auto_keyboard::usb::keycode::{KeyboardReport, MODIFIER_LEFT_SHIFT};
use m5atom_auto_keyboard::usb::{
    injection_plan, TimedReport, INTER_KEY_GAP_MS, MODIFIER_HOLD_MS, PRESS_HOLD_MS,
};

fn plain(key: u8) -> KeyboardReport {
    KeyboardReport { modifier: 0, reserved: 0, keycodes: [key, 0, 0, 0, 0, 0] }
}

fn shifted(key: u8) -> KeyboardReport {
    KeyboardReport { modifier: MODIFIER_LEFT_SHIFT, reserved: 0, keycodes: [key, 0, 0, 0, 0, 0] }
}

fn modifier_only() -> KeyboardReport {
    KeyboardReport { modifier: MODIFIER_LEFT_SHIFT, reserved: 0, keycodes: [0; 6] }
}

fn release() -> KeyboardReport {
    KeyboardReport { modifier: 0, reserved: 0, keycodes: [0; 6] }
}

#[test]
fn plan_of_empty_input_is_empty() {
    assert_eq!(injection_plan(&Vec::new()), Vec::<TimedReport>::new());
}

#[test]
fn plain_key_gets_press_and_release() {
    let plan = injection_plan(&b"b".to_vec());
    assert_eq!(
        plan,
        vec![
            TimedReport { report: plain(0x05), hold_ms: PRESS_HOLD_MS },
            TimedReport { report: release(), hold_ms: INTER_KEY_GAP_MS },
        ]
    );
}

#[test]
fn shifted_key_gets_modifier_bracket() {
    // Four separate transmissions: modifier alone, modifier+key, modifier
    // alone again, then the all-zero release.
    let plan = injection_plan(&b"A".to_vec());
    assert_eq!(
        plan,
        vec![
            TimedReport { report: modifier_only(), hold_ms: MODIFIER_HOLD_MS },
            TimedReport { report: shifted(0x04), hold_ms: PRESS_HOLD_MS },
            TimedReport { report: modifier_only(), hold_ms: MODIFIER_HOLD_MS },
            TimedReport { report: release(), hold_ms: INTER_KEY_GAP_MS },
        ]
    );
}

#[test]
fn typing_ab_bang_end_to_end() {
    // "Ab!": A and ! take the modifier bracket, b does not.
    let plan = injection_plan(&b"Ab!".to_vec());
    let reports: Vec<KeyboardReport> = plan.iter().map(|t| t.report).collect();
    assert_eq!(
        reports,
        vec![
            // shift+A press, bracketed
            modifier_only(),
            shifted(0x04),
            modifier_only(),
            release(),
            // b press/release
            plain(0x05),
            release(),
            // shift+1 press, bracketed
            modifier_only(),
            shifted(0x1e),
            modifier_only(),
            release(),
        ]
    );
    let holds: Vec<u32> = plan.iter().map(|t| t.hold_ms).collect();
    assert_eq!(holds, vec![10, 50, 10, 20, 50, 20, 10, 50, 10, 20]);
}

#[test]
fn unsupported_characters_are_skipped_silently() {
    // A single bad byte does not abort the rest of the sequence, and it
    // contributes no report at all.
    let with_bad = injection_plan(&vec![b'a', 0x01, b'c']);
    let without = injection_plan(&b"ac".to_vec());
    assert_eq!(with_bad, without);
    assert_eq!(with_bad.len(), 4);
}

#[test]
fn wholly_unsupported_input_transmits_nothing() {
    assert_eq!(injection_plan(&vec![0x00, 0x07, 0xff]), Vec::new());
}
