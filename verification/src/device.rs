//! Compute-device selection.
//!
//! The shell enumerates the physical devices the GPU runtime reports and
//! reduces each to a `DeviceProfile`: its kind, whether it supports every
//! required extension, and the capability flags of its queue families in
//! enumeration order. Selection itself is pure and verified: discard devices
//! without the required extensions or without a qualifying queue family, then
//! pick the best-ranked survivor, ties broken by enumeration order, and
//! within it the first qualifying family.

use vstd::prelude::*;

verus! {

/// The queue-capability bit for compute work, as the GPU runtime defines it.
pub const VK_QUEUEFLAGS_COMPUTE: u32 = 0x2;

/// What kind of processor a physical device is.
#[derive(Clone, Copy, Debug, PartialEq, Eq, Structural)]
pub enum DeviceKind {
    DiscreteGpu,
    IntegratedGpu,
    VirtualGpu,
    Cpu,
    /// A device of a kind the runtime does not classify.
    Other,
}

impl DeviceKind {
    /// Preference rank; lower is preferred. A discrete GPU beats an
    /// integrated one, which beats a virtual one, which beats the CPU
    /// fallback, which beats an unclassified device.
    pub open spec fn rank_spec(self) -> int {
        match self {
            DeviceKind::DiscreteGpu => 0,
            DeviceKind::IntegratedGpu => 1,
            DeviceKind::VirtualGpu => 2,
            DeviceKind::Cpu => 3,
            DeviceKind::Other => 4,
        }
    }

    /// Preference rank; lower is preferred.
    pub fn rank(self) -> (r: u32)
        ensures
            r as int == self.rank_spec(),
    {
        match self {
            DeviceKind::DiscreteGpu => 0,
            DeviceKind::IntegratedGpu => 1,
            DeviceKind::VirtualGpu => 2,
            DeviceKind::Cpu => 3,
            DeviceKind::Other => 4,
        }
    }
}

/// What the selector reads of one physical device.
pub struct DeviceProfile {
    pub kind: DeviceKind,
    /// The device supports every required extension.
    pub has_required_extensions: bool,
    /// The capability flags of each queue family, in enumeration order.
    pub queue_family_flags: Vec<u32>,
}

/// `flags` offers every capability bit in `req`.
pub open spec fn flags_superset(flags: u32, req: u32) -> bool {
    flags & req == req
}

/// The device has a queue family covering the required capabilities.
pub open spec fn has_family(d: DeviceProfile, req: u32) -> bool {
    exists|j: int|
        0 <= j < d.queue_family_flags@.len() && flags_superset(
            #[trigger] d.queue_family_flags@[j],
            req,
        )
}

/// The device survives the filter: required extensions present and at least
/// one queue family covering the required capabilities.
pub open spec fn qualifies(d: DeviceProfile, req: u32) -> bool {
    d.has_required_extensions && has_family(d, req)
}

/// Index of the first queue family whose flags cover `req`, or `None` when no
/// family does.
fn first_family(flags: &Vec<u32>, req: u32) -> (r: Option<u32>)
    requires
        flags@.len() <= u32::MAX,
    ensures
        r matches Some(j) ==> j < flags@.len() && flags_superset(flags@[j as int], req)
            && forall|k: int| 0 <= k < j ==> !flags_superset(#[trigger] flags@[k], req),
        r is None ==> forall|k: int|
            0 <= k < flags@.len() ==> !flags_superset(#[trigger] flags@[k], req),
{
    let mut j: usize = 0;
    while j < flags.len()
        invariant
            j <= flags@.len(),
            flags@.len() <= u32::MAX,
            forall|k: int| 0 <= k < j ==> !flags_superset(#[trigger] flags@[k], req),
        decreases flags@.len() - j,
    {
        let f: u32 = flags[j];
        if f & req == req {
            return Some(j as u32);
        }
        j = j + 1;
    }
    None
}

/// Pick the compute device: among the devices that qualify (required
/// extensions present and some queue family covering `required_flags`),
/// return the index of the best-ranked one — the earliest such device when
/// ranks tie — together with the index of its first qualifying queue family.
/// Returns `None` exactly when no device qualifies; the caller treats that as
/// fatal, since the renderer has no fallback.
pub fn select_compute_device(devices: &Vec<DeviceProfile>, required_flags: u32) -> (r: Option<
    (usize, u32),
>)
    requires
        forall|i: int|
            0 <= i < devices@.len() ==> (#[trigger] devices@[i]).queue_family_flags@.len()
                <= u32::MAX,
    ensures
        r is None <==> forall|i: int|
            0 <= i < devices@.len() ==> !qualifies(#[trigger] devices@[i], required_flags),
        r matches Some(sel) ==> {
            &&& sel.0 < devices@.len()
            &&& qualifies(devices@[sel.0 as int], required_flags)
            &&& sel.1 < devices@[sel.0 as int].queue_family_flags@.len()
            &&& flags_superset(
                devices@[sel.0 as int].queue_family_flags@[sel.1 as int],
                required_flags,
            )
            &&& forall|k: int|
                0 <= k < sel.1 ==> !flags_superset(
                    #[trigger] devices@[sel.0 as int].queue_family_flags@[k],
                    required_flags,
                )
            &&& forall|j: int|
                0 <= j < devices@.len() && qualifies(#[trigger] devices@[j], required_flags)
                    ==> devices@[sel.0 as int].kind.rank_spec() <= devices@[j].kind.rank_spec()
            &&& forall|j: int|
                0 <= j < sel.0 && qualifies(#[trigger] devices@[j], required_flags)
                    ==> devices@[sel.0 as int].kind.rank_spec() < devices@[j].kind.rank_spec()
        },
{
    let mut have: bool = false;
    let mut best_i: usize = 0;
    let mut best_f: u32 = 0;
    let mut best_rank: u32 = 0;
    let mut i: usize = 0;
    while i < devices.len()
        invariant
            i <= devices@.len(),
            forall|k: int|
                0 <= k < devices@.len() ==> (#[trigger] devices@[k]).queue_family_flags@.len()
                    <= u32::MAX,
            !have ==> forall|j: int|
                0 <= j < i ==> !qualifies(#[trigger] devices@[j], required_flags),
            have ==> {
                &&& best_i < i
                &&& qualifies(devices@[best_i as int], required_flags)
                &&& best_rank as int == devices@[best_i as int].kind.rank_spec()
                &&& best_f < devices@[best_i as int].queue_family_flags@.len()
                &&& flags_superset(
                    devices@[best_i as int].queue_family_flags@[best_f as int],
                    required_flags,
                )
                &&& forall|k: int|
                    0 <= k < best_f ==> !flags_superset(
                        #[trigger] devices@[best_i as int].queue_family_flags@[k],
                        required_flags,
                    )
                &&& forall|j: int|
                    0 <= j < i && qualifies(#[trigger] devices@[j], required_flags)
                        ==> (best_rank as int) <= devices@[j].kind.rank_spec()
                &&& forall|j: int|
                    0 <= j < best_i && qualifies(#[trigger] devices@[j], required_flags)
                        ==> (best_rank as int) < devices@[j].kind.rank_spec()
            },
        decreases devices@.len() - i,
    {
        if devices[i].has_required_extensions {
            let fam: Option<u32> = first_family(&devices[i].queue_family_flags, required_flags);
            match fam {
                Some(f) => {
                    let rank: u32 = devices[i].kind.rank();
                    if !have || rank < best_rank {
                        have = true;
                        best_i = i;
                        best_f = f;
                        best_rank = rank;
                    }
                },
                None => {},
            }
        }
        i = i + 1;
    }
    if have {
        Some((best_i, best_f))
    } else {
        None
    }
}

} // verus!
