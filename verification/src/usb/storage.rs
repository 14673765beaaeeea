//! Storage arbitration: the mutually exclusive access modes of the FAT
//! volume on the wear-leveled flash partition. The arbiter decides every
//! transition; the platform calls that mount, register or release the
//! volume run at the unverified edge and report back only whether they
//! succeeded.

use vstd::prelude::*;

verus! {

/// Who currently owns the flash volume. Exactly one mode is active at a
/// time; `FirmwarePrivate` and `HostExposed` exclude each other by
/// construction.
#[derive(Clone, Copy, Debug, PartialEq, Eq, Structural)]
pub enum StorageMode {
    Unmounted,
    FirmwarePrivate,
    HostExposed,
}

/// What can go wrong with a storage transition: the volume is already
/// claimed, nothing is claimed that could be released, or the platform
/// could not find or mount the partition (recoverable by retrying).
#[derive(Clone, Copy, Debug, PartialEq, Eq, Structural)]
pub enum StorageError {
    AlreadyMounted,
    NotMounted,
    Unavailable,
}

/// The storage arbiter: the active access mode, and whether the
/// wear-leveling handle under the volume has been initialized. The handle
/// is initialized at most once per process lifetime and never
/// re-initialized across mount/unmount cycles.
#[derive(Clone, Copy, Debug, PartialEq, Eq, Structural)]
pub struct StorageArbiter {
    pub mode: StorageMode,
    pub wl_ready: bool,
}

/// What `ensure_wl` does: nothing once the wear-leveling handle exists;
/// otherwise it records a successful platform initialization, or reports
/// the volume unavailable.
pub open spec fn ensure_wl_step(pre: StorageArbiter, init_ok: bool) -> (
    StorageArbiter,
    Result<(), StorageError>,
) {
    if pre.wl_ready {
        (pre, Result::Ok(()))
    } else if init_ok {
        (StorageArbiter { mode: pre.mode, wl_ready: true }, Result::Ok(()))
    } else {
        (pre, Result::Err(StorageError::Unavailable))
    }
}

/// What `mount_without_msc` does: a mount in any non-unmounted mode is
/// rejected (the documented policy: rejected, not idempotent); a mount
/// without the wear-leveling handle, or whose platform mount failed, is
/// unavailable; otherwise the firmware holds the volume privately.
pub open spec fn mount_without_msc_step(pre: StorageArbiter, op_ok: bool) -> (
    StorageArbiter,
    Result<(), StorageError>,
) {
    if !(pre.mode is Unmounted) {
        (pre, Result::Err(StorageError::AlreadyMounted))
    } else if !pre.wl_ready || !op_ok {
        (pre, Result::Err(StorageError::Unavailable))
    } else {
        (StorageArbiter { mode: StorageMode::FirmwarePrivate, wl_ready: pre.wl_ready }, Result::Ok(()))
    }
}

/// What `init_msc` does: registering the volume as the mass-storage
/// backing store is rejected in any non-unmounted mode, unavailable
/// without the wear-leveling handle or when the platform registration
/// failed, and otherwise exposes the volume to the host.
pub open spec fn init_msc_step(pre: StorageArbiter, op_ok: bool) -> (
    StorageArbiter,
    Result<(), StorageError>,
) {
    if !(pre.mode is Unmounted) {
        (pre, Result::Err(StorageError::AlreadyMounted))
    } else if !pre.wl_ready || !op_ok {
        (pre, Result::Err(StorageError::Unavailable))
    } else {
        (StorageArbiter { mode: StorageMode::HostExposed, wl_ready: pre.wl_ready }, Result::Ok(()))
    }
}

/// What `unmount` does: releasing the firmware-private mount returns the
/// volume to the unmounted mode; in any other mode there is nothing to
/// unmount; a failed platform unmount leaves the mount in place.
pub open spec fn unmount_step(pre: StorageArbiter, op_ok: bool) -> (
    StorageArbiter,
    Result<(), StorageError>,
) {
    if !(pre.mode is FirmwarePrivate) {
        (pre, Result::Err(StorageError::NotMounted))
    } else if !op_ok {
        (pre, Result::Err(StorageError::Unavailable))
    } else {
        (StorageArbiter { mode: StorageMode::Unmounted, wl_ready: pre.wl_ready }, Result::Ok(()))
    }
}

/// What `deinit` does: withdrawing the volume from the host returns it to
/// the unmounted mode; in any other mode there is nothing to withdraw.
pub open spec fn deinit_step(pre: StorageArbiter) -> (StorageArbiter, Result<(), StorageError>) {
    if !(pre.mode is HostExposed) {
        (pre, Result::Err(StorageError::NotMounted))
    } else {
        (StorageArbiter { mode: StorageMode::Unmounted, wl_ready: pre.wl_ready }, Result::Ok(()))
    }
}

impl StorageArbiter {
    /// A fresh arbiter: nothing mounted, wear-leveling not yet initialized.
    pub fn new() -> (r: StorageArbiter)
        ensures
            r.mode is Unmounted,
            !r.wl_ready,
    {
        StorageArbiter { mode: StorageMode::Unmounted, wl_ready: false }
    }

    /// The active access mode.
    pub fn mode(&self) -> (r: StorageMode)
        ensures
            r == self.mode,
    {
        self.mode
    }

    /// Whether the wear-leveling handle has been initialized.
    pub fn wl_ready(&self) -> (r: bool)
        ensures
            r == self.wl_ready,
    {
        self.wl_ready
    }

    /// Record the one-time wear-leveling initialization. `init_ok` is the
    /// outcome of the platform's partition lookup and wear-leveling mount,
    /// which the caller attempts only while `wl_ready` is false; once the
    /// handle exists this is a no-op and the outcome is ignored.
    pub fn ensure_wl(&mut self, init_ok: bool) -> (r: Result<(), StorageError>)
        ensures
            (*final(self), r) == ensure_wl_step(*old(self), init_ok),
    {
        if self.wl_ready {
            Ok(())
        } else if init_ok {
            self.wl_ready = true;
            Ok(())
        } else {
            Err(StorageError::Unavailable)
        }
    }

    /// Claim the volume for exclusive firmware access, not visible to the
    /// USB host. `op_ok` is the outcome of the platform's FAT mount, which
    /// the caller attempts only in the unmounted mode with `wl_ready` set.
    pub fn mount_without_msc(&mut self, op_ok: bool) -> (r: Result<(), StorageError>)
        ensures
            (*final(self), r) == mount_without_msc_step(*old(self), op_ok),
    {
        match self.mode {
            StorageMode::Unmounted => {
                if !self.wl_ready || !op_ok {
                    Err(StorageError::Unavailable)
                } else {
                    self.mode = StorageMode::FirmwarePrivate;
                    Ok(())
                }
            },
            _ => Err(StorageError::AlreadyMounted),
        }
    }

    /// Register the volume as the USB mass-storage backing store, exposing
    /// it to the host. `op_ok` is the outcome of the platform's storage
    /// registration, which the caller attempts only in the unmounted mode
    /// with `wl_ready` set.
    pub fn init_msc(&mut self, op_ok: bool) -> (r: Result<(), StorageError>)
        ensures
            (*final(self), r) == init_msc_step(*old(self), op_ok),
    {
        match self.mode {
            StorageMode::Unmounted => {
                if !self.wl_ready || !op_ok {
                    Err(StorageError::Unavailable)
                } else {
                    self.mode = StorageMode::HostExposed;
                    Ok(())
                }
            },
            _ => Err(StorageError::AlreadyMounted),
        }
    }

    /// Release the firmware-private mount. `op_ok` is the outcome of the
    /// platform's unmount, which the caller attempts only in the
    /// firmware-private mode.
    pub fn unmount(&mut self, op_ok: bool) -> (r: Result<(), StorageError>)
        ensures
            (*final(self), r) == unmount_step(*old(self), op_ok),
    {
        match self.mode {
            StorageMode::FirmwarePrivate => {
                if !op_ok {
                    Err(StorageError::Unavailable)
                } else {
                    self.mode = StorageMode::Unmounted;
                    Ok(())
                }
            },
            _ => Err(StorageError::NotMounted),
        }
    }

    /// Withdraw the volume from the host and release the mass-storage
    /// registration.
    pub fn deinit(&mut self) -> (r: Result<(), StorageError>)
        ensures
            (*final(self), r) == deinit_step(*old(self)),
    {
        match self.mode {
            StorageMode::HostExposed => {
                self.mode = StorageMode::Unmounted;
                Ok(())
            },
            _ => Err(StorageError::NotMounted),
        }
    }

    /// Whether the host currently has the volume claimed — pure status
    /// signaling, used to drive an indicator.
    pub fn is_exposed(&self) -> (r: bool)
        ensures
            r == (self.mode is HostExposed),
    {
        match self.mode {
            StorageMode::HostExposed => true,
            _ => false,
        }
    }
}

/// Law: from the unmounted mode with the wear-leveling handle ready, the
/// firmware-private round trip succeeds: mount enters `FirmwarePrivate`,
/// unmount returns to `Unmounted`, and the handle stays initialized.
pub proof fn lemma_private_round_trip(a: StorageArbiter)
    requires
        a.mode is Unmounted,
        a.wl_ready,
    ensures
        ({
            let (mounted, r1) = mount_without_msc_step(a, true);
            let (back, r2) = unmount_step(mounted, true);
            r1 is Ok && mounted.mode is FirmwarePrivate && r2 is Ok && back.mode is Unmounted
                && back.wl_ready
        }),
{
}

/// Law: from the unmounted mode with the wear-leveling handle ready, the
/// host-exposed round trip succeeds: registration enters `HostExposed`,
/// withdrawal returns to `Unmounted`, and the handle stays initialized.
pub proof fn lemma_host_round_trip(a: StorageArbiter)
    requires
        a.mode is Unmounted,
        a.wl_ready,
    ensures
        ({
            let (exposed, r1) = init_msc_step(a, true);
            let (back, r2) = deinit_step(exposed);
            r1 is Ok && exposed.mode is HostExposed && r2 is Ok && back.mode is Unmounted
                && back.wl_ready
        }),
{
}

/// Law: claiming the volume in any non-unmounted mode — in particular a
/// firmware-private mount while the host holds it — fails with
/// `AlreadyMounted` and changes nothing, whatever the platform outcome.
/// This is the documented policy: such mounts are rejected, not treated as
/// idempotent.
pub proof fn lemma_mount_rejected_when_claimed(a: StorageArbiter, op_ok: bool)
    requires
        !(a.mode is Unmounted),
    ensures
        mount_without_msc_step(a, op_ok) == (
            a,
            Result::<(), StorageError>::Err(StorageError::AlreadyMounted),
        ),
        init_msc_step(a, op_ok) == (
            a,
            Result::<(), StorageError>::Err(StorageError::AlreadyMounted),
        ),
{
}

/// Law: the wear-leveling handle is initialized at most once and never
/// re-initialized: once ready, `ensure_wl` is a no-op, and no transition
/// ever changes readiness.
pub proof fn lemma_wl_initialized_once(a: StorageArbiter, outcome: bool)
    ensures
        ensure_wl_step(a, outcome).0.wl_ready == (a.wl_ready || outcome),
        a.wl_ready ==> ensure_wl_step(a, outcome) == (a, Result::<(), StorageError>::Ok(())),
        mount_without_msc_step(a, outcome).0.wl_ready == a.wl_ready,
        init_msc_step(a, outcome).0.wl_ready == a.wl_ready,
        unmount_step(a, outcome).0.wl_ready == a.wl_ready,
        deinit_step(a).0.wl_ready == a.wl_ready,
{
}

} // verus!
