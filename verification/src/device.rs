//! The choice of the physical device and of the queue family that the
//! renderer runs on.

use vstd::prelude::*;

verus! {

/// What kind of hardware a physical device is.
#[derive(Clone, Copy, Debug, PartialEq, Eq)]
pub enum DeviceKind {
    DiscreteGpu,
    IntegratedGpu,
    VirtualGpu,
    Cpu,
    Other,
    /// A kind that the device reports and this library has no name for.
    Unlisted,
}

impl DeviceKind {
    /// The place of a kind in the order of preference: the lower, the better.
    pub open spec fn rank(self) -> nat {
        match self {
            DeviceKind::DiscreteGpu => 0,
            DeviceKind::IntegratedGpu => 1,
            DeviceKind::VirtualGpu => 2,
            DeviceKind::Cpu => 3,
            DeviceKind::Other => 4,
            DeviceKind::Unlisted => 5,
        }
    }

    pub fn preference(&self) -> (r: u8)
        ensures
            r == self.rank(),
    {
        match self {
            DeviceKind::DiscreteGpu => 0,
            DeviceKind::IntegratedGpu => 1,
            DeviceKind::VirtualGpu => 2,
            DeviceKind::Cpu => 3,
            DeviceKind::Other => 4,
            DeviceKind::Unlisted => 5,
        }
    }
}

/// What the selection reads of one queue family of a device.
#[derive(Clone, Copy, Debug, PartialEq, Eq)]
pub struct QueueFamily {
    /// The family runs compute dispatches.
    pub compute: bool,
    /// The family can present to the target surface.
    pub presents: bool,
}

impl QueueFamily {
    /// A family serves the renderer if it can both dispatch and present.
    pub open spec fn fits(self) -> bool {
        self.compute && self.presents
    }
}

/// What the selection reads of one physical device.
#[derive(Clone, Debug, PartialEq, Eq)]
pub struct DeviceInfo {
    pub kind: DeviceKind,
    /// The device offers every extension that the renderer enables.
    pub has_extensions: bool,
    /// The queue families of the device, in the order in which it lists them.
    pub families: Vec<QueueFamily>,
}

impl DeviceInfo {
    /// A device is a candidate if it has the extensions and a fitting family.
    pub open spec fn suitable(self) -> bool {
        self.has_extensions && exists|i: int|
            0 <= i < self.families@.len() && #[trigger] self.families@[i].fits()
    }
}

/// A device and one of its queue families, each by its index.
#[derive(Clone, Copy, Debug, PartialEq, Eq)]
pub struct Selection {
    pub device: usize,
    pub family: usize,
}

/// Whether `i` is the first fitting family in `families`.
pub open spec fn is_first_fit(families: Seq<QueueFamily>, i: int) -> bool {
    &&& 0 <= i < families.len()
    &&& families[i].fits()
    &&& forall|j: int| 0 <= j < i ==> !(#[trigger] families[j]).fits()
}

/// Whether `d` is the candidate to take from `devices`: a suitable device that
/// no suitable device is preferred to, and the first of those.
pub open spec fn is_best(devices: Seq<DeviceInfo>, d: int) -> bool {
    &&& 0 <= d < devices.len()
    &&& devices[d].suitable()
    &&& forall|j: int|
        0 <= j < devices.len() && (#[trigger] devices[j]).suitable() ==> devices[d].kind.rank()
            <= devices[j].kind.rank()
    &&& forall|j: int|
        0 <= j < d && (#[trigger] devices[j]).suitable() ==> devices[d].kind.rank()
            < devices[j].kind.rank()
}

/// The index of the first family that can both dispatch and present.
pub fn first_fitting_family(families: &Vec<QueueFamily>) -> (r: Option<usize>)
    ensures
        match r {
            Some(i) => is_first_fit(families@, i as int),
            None => forall|j: int| 0 <= j < families@.len() ==> !(#[trigger] families@[j]).fits(),
        },
{
    let mut i: usize = 0;
    while i < families.len()
        invariant
            i <= families@.len(),
            forall|j: int| 0 <= j < i ==> !(#[trigger] families@[j]).fits(),
        decreases families@.len() - i,
    {
        if families[i].compute && families[i].presents {
            return Some(i);
        }
        i += 1;
    }
    None
}

/// Picks the device to render on.
///
/// Of the suitable devices the one of the most preferred kind is taken, and
/// among several of that kind the one listed first; with it comes its first
/// fitting queue family. Where no device is suitable there is no selection.
pub fn select_device(devices: &Vec<DeviceInfo>) -> (r: Option<Selection>)
    ensures
        match r {
            Some(s) => is_best(devices@, s.device as int) && is_first_fit(
                devices@[s.device as int].families@,
                s.family as int,
            ),
            None => forall|j: int| 0 <= j < devices@.len() ==> !(#[trigger] devices@[j]).suitable(),
        },
{
    let mut best: Option<Selection> = None;
    let mut best_rank: u8 = 0;
    let mut i: usize = 0;
    while i < devices.len()
        invariant
            i <= devices@.len(),
            match best {
                Some(s) => is_best(devices@.take(i as int), s.device as int) && is_first_fit(
                    devices@[s.device as int].families@,
                    s.family as int,
                ) && best_rank == devices@[s.device as int].kind.rank(),
                None => forall|j: int| 0 <= j < i ==> !(#[trigger] devices@[j]).suitable(),
            },
        decreases devices@.len() - i,
    {
        let device = &devices[i];
        let ghost seen = devices@.take(i as int);
        let ghost grown = devices@.take(i + 1);
        assert(forall|j: int| 0 <= j < i ==> grown[j] == seen[j]);
        assert(grown[i as int] == devices@[i as int]);
        if device.has_extensions {
            match first_fitting_family(&device.families) {
                Some(family) => {
                    let rank = device.kind.preference();
                    let better = match best {
                        Some(_) => rank < best_rank,
                        None => true,
                    };
                    if better {
                        best = Some(Selection { device: i, family });
                        best_rank = rank;
                    }
                },
                None => {},
            }
        }
        i += 1;
    }
    assert(devices@.take(i as int) == devices@);
    best
}

} // verus!
