//! USB composite-device core: HID interface instances, the installed-device
//! registry, and the keystroke injection planner.

pub mod descriptor;
pub mod keycode;
pub mod storage;

use vstd::prelude::*;

use crate::usb::keycode::{encode, encode_spec, release_report, KeyboardReport};

verus! {

/// What can go wrong while building or installing the composite device:
/// the fixed descriptor buffer was too small for the requested interfaces,
/// or the process-wide device slot was used out of order.
#[derive(Clone, Copy, Debug, PartialEq, Eq, Structural)]
pub enum UsbError {
    ConfigurationOverflow,
    AlreadyInstalled,
    NotInstalled,
}

/// One declared HID interface: its instance id (unique within an installed
/// device), the report id used on its endpoint, and its HID report
/// descriptor bytes.
#[derive(Clone, Debug)]
pub struct HidInstance {
    pub instance_id: u8,
    pub report_id: u8,
    pub descriptor: Vec<u8>,
}

/// Mathematical image of a `HidInstance`: the same fields with the
/// descriptor as a byte sequence.
pub struct HidInstanceView {
    pub instance_id: u8,
    pub report_id: u8,
    pub descriptor: Seq<u8>,
}

impl View for HidInstance {
    type V = HidInstanceView;

    open spec fn view(&self) -> HidInstanceView {
        HidInstanceView {
            instance_id: self.instance_id,
            report_id: self.report_id,
            descriptor: self.descriptor@,
        }
    }
}

/// The views of a sequence of interface instances, element by element.
pub open spec fn views_of(instances: Seq<HidInstance>) -> Seq<HidInstanceView> {
    instances.map_values(|h: HidInstance| h@)
}

impl HidInstance {
    /// The interface's HID report descriptor bytes.
    pub fn desc(&self) -> (r: &Vec<u8>)
        ensures
            r@ == self@.descriptor,
    {
        &self.descriptor
    }
}

/// How long a modifier-only report is held before and after the main key
/// report, so the host's key state cannot race the keypress.
pub const MODIFIER_HOLD_MS: u32 = 10;

/// How long the full key report is held: the "press" duration.
pub const PRESS_HOLD_MS: u32 = 50;

/// The gap after the release report, before the next character.
pub const INTER_KEY_GAP_MS: u32 = 20;

/// One transmission of the injection pipeline: the report to send and how
/// long to hold it before the next report.
#[derive(Clone, Copy, Debug, PartialEq, Eq)]
pub struct TimedReport {
    pub report: KeyboardReport,
    pub hold_ms: u32,
}

/// The given report with its keycodes cleared: only the modifier is held.
pub open spec fn modifier_only(r: KeyboardReport) -> KeyboardReport {
    KeyboardReport { modifier: r.modifier, reserved: r.reserved, keycodes: [0, 0, 0, 0, 0, 0] }
}

/// The timed reports that type one character. An unsupported character
/// contributes nothing. A plain key is pressed and then released. A shifted
/// key is bracketed: modifier alone, modifier plus key, modifier alone
/// again, then the all-zero release — four separate transmissions, because
/// some hosts coalesce simultaneous modifier and key transitions.
pub open spec fn char_plan(b: u8) -> Seq<TimedReport> {
    match encode_spec(b) {
        Option::None => Seq::<TimedReport>::empty(),
        Option::Some(r) => if r.modifier != 0 {
            seq![
                TimedReport { report: modifier_only(r), hold_ms: MODIFIER_HOLD_MS },
                TimedReport { report: r, hold_ms: PRESS_HOLD_MS },
                TimedReport { report: modifier_only(r), hold_ms: MODIFIER_HOLD_MS },
                TimedReport { report: release_report(), hold_ms: INTER_KEY_GAP_MS },
            ]
        } else {
            seq![
                TimedReport { report: r, hold_ms: PRESS_HOLD_MS },
                TimedReport { report: release_report(), hold_ms: INTER_KEY_GAP_MS },
            ]
        },
    }
}

/// The timed reports that type a whole character sequence, in order.
pub open spec fn plan_of(keys: Seq<u8>) -> Seq<TimedReport>
    decreases keys.len(),
{
    if keys.len() == 0 {
        Seq::<TimedReport>::empty()
    } else {
        char_plan(keys[0]) + plan_of(keys.drop_first())
    }
}

/// Plan the exact timed report sequence that types `keys`: per supported
/// character the press/hold/release/gap transmissions of `char_plan`, per
/// unsupported character nothing (best-effort typing, a bad byte does not
/// abort the rest). The caller transmits each report in order and holds it
/// for the stated time.
pub fn injection_plan(keys: &Vec<u8>) -> (r: Vec<TimedReport>)
    ensures
        r@ == plan_of(keys@),
{
    let mut out: Vec<TimedReport> = Vec::new();
    let mut i: usize = 0;
    proof {
        assert(keys@.skip(0) =~= keys@);
        assert(out@ + plan_of(keys@) =~= plan_of(keys@));
    }
    while i < keys.len()
        invariant
            i <= keys@.len(),
            out@ + plan_of(keys@.skip(i as int)) == plan_of(keys@),
        decreases keys@.len() - i,
    {
        let ghost suffix = keys@.skip(i as int);
        let ghost before = out@;
        proof {
            assert(suffix[0] == keys@[i as int]);
            assert(suffix.drop_first() =~= keys@.skip(i as int + 1));
        }
        match encode(keys[i]) {
            Option::None => {
                proof {
                    assert(char_plan(keys@[i as int]) =~= Seq::<TimedReport>::empty());
                    assert(before + char_plan(keys@[i as int]) =~= before);
                }
            },
            Option::Some(r) => {
                if r.modifier != 0 {
                    out.push(
                        TimedReport {
                            report: KeyboardReport {
                                modifier: r.modifier,
                                reserved: r.reserved,
                                keycodes: [0, 0, 0, 0, 0, 0],
                            },
                            hold_ms: MODIFIER_HOLD_MS,
                        },
                    );
                }
                out.push(TimedReport { report: r, hold_ms: PRESS_HOLD_MS });
                if r.modifier != 0 {
                    out.push(
                        TimedReport {
                            report: KeyboardReport {
                                modifier: r.modifier,
                                reserved: r.reserved,
                                keycodes: [0, 0, 0, 0, 0, 0],
                            },
                            hold_ms: MODIFIER_HOLD_MS,
                        },
                    );
                }
                out.push(TimedReport { report: KeyboardReport::release(), hold_ms: INTER_KEY_GAP_MS });
                proof {
                    assert(out@ =~= before + char_plan(keys@[i as int]));
                }
            },
        }
        proof {
            assert(out@ == before + char_plan(keys@[i as int]));
            assert(out@ + plan_of(keys@.skip(i as int + 1)) =~= before + (char_plan(suffix[0])
                + plan_of(suffix.drop_first())));
            assert(char_plan(suffix[0]) + plan_of(suffix.drop_first()) == plan_of(suffix));
        }
        i = i + 1;
    }
    proof {
        assert(keys@.skip(keys@.len() as int) =~= Seq::<u8>::empty());
        assert(out@ + Seq::<TimedReport>::empty() =~= out@);
    }
    out
}

/// The process-wide record of an installed composite device: the declared
/// HID interface instances and the configuration descriptor built from
/// them. The registry keeps the buffer alive until `uninstall`, for as long
/// as the vendor stack may reference it.
pub struct InstalledDevice {
    pub instances: Vec<HidInstance>,
    pub config: Vec<u8>,
}

/// The registry of the currently installed composite device. It enforces
/// single installation and answers the vendor stack's descriptor-lookup
/// callbacks; after `uninstall` the absence of the device is itself the
/// error state.
pub struct DeviceRegistry {
    pub installed: Option<InstalledDevice>,
}

/// Mathematical image of the registry: the installed device's interface
/// views and configuration descriptor bytes, if one is installed.
#[verifier::ext_equal]
pub struct RegistryView {
    pub installed: Option<(Seq<HidInstanceView>, Seq<u8>)>,
}

impl View for DeviceRegistry {
    type V = RegistryView;

    open spec fn view(&self) -> RegistryView {
        match self.installed {
            Option::None => RegistryView { installed: Option::None },
            Option::Some(d) => RegistryView {
                installed: Option::Some((views_of(d.instances@), d.config@)),
            },
        }
    }
}

/// Instance ids are unique within an installed device.
pub open spec fn unique_ids(instances: Seq<HidInstanceView>) -> bool {
    forall|i: int, j: int|
        0 <= i < j < instances.len() ==> instances[i].instance_id != instances[j].instance_id
}

/// What `install` does: reject when a device is already installed, reject a
/// configuration that does not fit the descriptor buffer, and otherwise
/// record the instances together with their configuration descriptor.
pub open spec fn install_step(
    pre: RegistryView,
    instances: Seq<HidInstanceView>,
    include_msc: bool,
) -> (RegistryView, Result<(), UsbError>) {
    if pre.installed is Some {
        (pre, Result::Err(UsbError::AlreadyInstalled))
    } else if descriptor::config_total_len(instances.len() as int, include_msc)
        > descriptor::CONFIG_BUFFER_SIZE as int {
        (pre, Result::Err(UsbError::ConfigurationOverflow))
    } else {
        (
            RegistryView {
                installed: Option::Some(
                    (instances, descriptor::config_bytes(instances, include_msc)),
                ),
            },
            Result::Ok(()),
        )
    }
}

/// What `uninstall` does: clear the installed device, or report that none
/// was installed.
pub open spec fn uninstall_step(pre: RegistryView) -> (RegistryView, Result<(), UsbError>) {
    if pre.installed is Some {
        (RegistryView { installed: Option::None }, Result::Ok(()))
    } else {
        (pre, Result::Err(UsbError::NotInstalled))
    }
}

/// The report descriptor of the first instance carrying `instance_id`, if
/// any.
pub open spec fn find_descriptor(instances: Seq<HidInstanceView>, instance_id: u8) -> Option<
    Seq<u8>,
>
    decreases instances.len(),
{
    if instances.len() == 0 {
        Option::None
    } else if instances[0].instance_id == instance_id {
        Option::Some(instances[0].descriptor)
    } else {
        find_descriptor(instances.drop_first(), instance_id)
    }
}

/// What `lookup_descriptor` answers: nothing while no device is installed,
/// else the matching instance's report descriptor.
pub open spec fn lookup_spec(v: RegistryView, instance_id: u8) -> Option<Seq<u8>> {
    match v.installed {
        Option::None => Option::None,
        Option::Some((instances, _)) => find_descriptor(instances, instance_id),
    }
}

impl DeviceRegistry {
    /// A registry with no device installed.
    pub fn new() -> (r: DeviceRegistry)
        ensures
            r@.installed is None,
    {
        DeviceRegistry { installed: Option::None }
    }

    /// Whether a composite device is currently installed.
    pub fn is_installed(&self) -> (r: bool)
        ensures
            r == (self@.installed is Some),
    {
        self.installed.is_some()
    }

    /// Install the composite device: fails with `AlreadyInstalled` while
    /// one is installed, with `ConfigurationOverflow` when the descriptor
    /// does not fit its fixed buffer (the caller must not proceed to the
    /// vendor stack then); otherwise records the instances and their
    /// configuration descriptor as the singleton.
    pub fn install(&mut self, instances: Vec<HidInstance>, include_msc: bool) -> (r: Result<
        (),
        UsbError,
    >)
        requires
            unique_ids(views_of(instances@)),
            forall|i: int|
                0 <= i < instances@.len() ==> (#[trigger] instances@[i]).descriptor@.len()
                    <= 0xffff,
        ensures
            (final(self)@, r) == install_step(old(self)@, views_of(instances@), include_msc),
    {
        if self.installed.is_some() {
            return Err(UsbError::AlreadyInstalled);
        }
        let config = match descriptor::config_descriptor(&instances, include_msc) {
            Ok(c) => c,
            Err(_) => {
                return Err(UsbError::ConfigurationOverflow);
            },
        };
        self.installed = Option::Some(InstalledDevice { instances, config });
        assert(self@ =~~= install_step(
            old(self)@,
            views_of(self.installed->0.instances@),
            include_msc,
        ).0);
        Ok(())
    }

    /// Tear down the record of the installed device; fails with
    /// `NotInstalled` when none is installed.
    pub fn uninstall(&mut self) -> (r: Result<(), UsbError>)
        ensures
            (final(self)@, r) == uninstall_step(old(self)@),
    {
        if self.installed.is_some() {
            self.installed = Option::None;
            Ok(())
        } else {
            Err(UsbError::NotInstalled)
        }
    }

    /// Answer the vendor stack's descriptor request: the report descriptor
    /// of the instance with this id, or nothing for unknown ids or while no
    /// device is installed.
    pub fn lookup_descriptor(&self, instance_id: u8) -> (r: Option<&Vec<u8>>)
        ensures
            match lookup_spec(self@, instance_id) {
                Option::None => r is None,
                Option::Some(d) => r matches Some(v) && v@ == d,
            },
    {
        match &self.installed {
            Option::None => Option::None,
            Option::Some(device) => {
                let ghost views = views_of(device.instances@);
                let mut i: usize = 0;
                proof {
                    assert(views.skip(0) =~= views);
                }
                while i < device.instances.len()
                    invariant
                        i <= views.len(),
                        views == views_of(device.instances@),
                        self@.installed matches Option::Some(inst) && inst.0 == views,
                        find_descriptor(views, instance_id) == find_descriptor(
                            views.skip(i as int),
                            instance_id,
                        ),
                    decreases views.len() - i,
                {
                    proof {
                        assert(views.skip(i as int)[0] == views[i as int]);
                        assert(views.skip(i as int).drop_first() =~= views.skip(i as int + 1));
                    }
                    if device.instances[i].instance_id == instance_id {
                        return Option::Some(&device.instances[i].descriptor);
                    }
                    i = i + 1;
                }
                proof {
                    assert(views.skip(views.len() as int) =~= Seq::<HidInstanceView>::empty());
                }
                Option::None
            },
        }
    }

    /// The configuration descriptor bytes of the installed device, which
    /// the vendor stack's install call consumes and may reference until
    /// `uninstall`.
    pub fn descriptor_set(&self) -> (r: Option<&Vec<u8>>)
        ensures
            match self@.installed {
                Option::None => r is None,
                Option::Some((_, config)) => r matches Some(v) && v@ == config,
            },
    {
        match &self.installed {
            Option::None => Option::None,
            Option::Some(device) => Option::Some(&device.config),
        }
    }
}

/// Law: a second install without an intervening uninstall fails with
/// `AlreadyInstalled` and leaves the registry unchanged, whatever is
/// installed the second time.
pub proof fn lemma_second_install_fails(
    pre: RegistryView,
    first: Seq<HidInstanceView>,
    first_msc: bool,
    second: Seq<HidInstanceView>,
    second_msc: bool,
)
    requires
        install_step(pre, first, first_msc).1 is Ok,
    ensures
        ({
            let mid = install_step(pre, first, first_msc).0;
            install_step(mid, second, second_msc) == (
                mid,
                Result::<(), UsbError>::Err(UsbError::AlreadyInstalled),
            )
        }),
{
}

/// Law: after an uninstall, descriptor lookup returns nothing for every
/// instance id.
pub proof fn lemma_lookup_after_uninstall(pre: RegistryView)
    ensures
        forall|instance_id: u8| lookup_spec(uninstall_step(pre).0, instance_id) is None,
{
}

/// Law: an unsupported character contributes nothing to the injection
/// plan — the transmitted report sequence excludes it entirely, wherever it
/// stands in the input.
pub proof fn lemma_unsupported_excluded(prefix: Seq<u8>, b: u8, suffix: Seq<u8>)
    requires
        encode_spec(b) is None,
    ensures
        plan_of(prefix + seq![b] + suffix) == plan_of(prefix + suffix),
    decreases prefix.len(),
{
    if prefix.len() == 0 {
        let whole = prefix + seq![b] + suffix;
        assert(whole[0] == b);
        assert(whole.drop_first() =~= suffix);
        assert(char_plan(b) =~= Seq::<TimedReport>::empty());
        assert(char_plan(b) + plan_of(suffix) =~= plan_of(suffix));
        assert(prefix + suffix =~= suffix);
    } else {
        lemma_unsupported_excluded(prefix.drop_first(), b, suffix);
        let whole = prefix + seq![b] + suffix;
        let rhs = prefix + suffix;
        assert(whole[0] == prefix[0]);
        assert(rhs[0] == prefix[0]);
        assert(whole.drop_first() =~= prefix.drop_first() + seq![b] + suffix);
        assert(rhs.drop_first() =~= prefix.drop_first() + suffix);
    }
}

} // verus!
