use vstd::prelude::*;

use crate::error::SurfaceError;

verus! {

/// The class of a physical GPU, as the driver reports it.
#[derive(Debug, Clone, Copy, PartialEq, Eq, Structural)]
pub enum DeviceKind {
    DiscreteGpu,
    IntegratedGpu,
    VirtualGpu,
    Cpu,
    Other,
    Unknown,
}

/// What device selection needs to know of one physical device.
#[derive(Debug, Clone)]
pub struct DeviceCandidate {
    pub kind: DeviceKind,
    /// Whether the device supports every required device-level extension.
    pub has_required_extensions: bool,
    /// For each queue family, in order, whether it supports graphics operations.
    pub queue_family_graphics: Vec<bool>,
}

/// The preference order of device classes: lower is preferred.
pub open spec fn kind_rank(k: DeviceKind) -> nat {
    match k {
        DeviceKind::DiscreteGpu => 0,
        DeviceKind::IntegratedGpu => 1,
        DeviceKind::VirtualGpu => 2,
        DeviceKind::Cpu => 3,
        DeviceKind::Other => 4,
        DeviceKind::Unknown => 5,
    }
}

/// `i` is the first index at which `flags` holds `true`.
pub open spec fn is_first_true(flags: Seq<bool>, i: int) -> bool {
    0 <= i < flags.len() && i <= u32::MAX && flags[i] && forall|j: int| 0 <= j < i ==> !flags[j]
}

/// Some queue family that a `u32` index can name supports graphics operations.
pub open spec fn has_true(flags: Seq<bool>) -> bool {
    exists|i: int| 0 <= i < flags.len() && i <= u32::MAX && #[trigger] flags[i]
}

/// A device is usable when it has the required extensions and a graphics-capable queue family.
pub open spec fn is_eligible(c: DeviceCandidate) -> bool {
    c.has_required_extensions && has_true(c.queue_family_graphics@)
}

/// The position of a device class in a table of ranks.
pub open spec fn kind_index(k: DeviceKind) -> int {
    match k {
        DeviceKind::DiscreteGpu => 0,
        DeviceKind::IntegratedGpu => 1,
        DeviceKind::VirtualGpu => 2,
        DeviceKind::Cpu => 3,
        DeviceKind::Other => 4,
        DeviceKind::Unknown => 5,
    }
}

/// The rank that a table gives to a device class.
pub open spec fn rank_in(ranks: Seq<u8>, k: DeviceKind) -> nat {
    ranks[kind_index(k)] as nat
}

/// The default table: the ranks of `kind_rank`.
pub open spec fn default_ranks() -> Seq<u8> {
    seq![0u8, 1u8, 2u8, 3u8, 4u8, 5u8]
}

/// `d` is the first of the eligible devices of least rank in `ranks`, and `q` its first graphics
/// queue family.
pub open spec fn is_ranked_selection(cands: Seq<DeviceCandidate>, ranks: Seq<u8>, d: int, q: int) -> bool {
    &&& 0 <= d < cands.len()
    &&& is_eligible(cands[d])
    &&& is_first_true(cands[d].queue_family_graphics@, q)
    &&& forall|j: int|
        0 <= j < cands.len() && is_eligible(#[trigger] cands[j]) ==> rank_in(ranks, cands[d].kind)
            <= rank_in(ranks, cands[j].kind)
    &&& forall|j: int|
        0 <= j < d && is_eligible(#[trigger] cands[j]) ==> rank_in(ranks, cands[d].kind) < rank_in(
            ranks,
            cands[j].kind,
        )
}

/// `d` is the first of the eligible devices of least rank, and `q` its first graphics queue family.
pub open spec fn is_selection(cands: Seq<DeviceCandidate>, d: int, q: int) -> bool {
    &&& 0 <= d < cands.len()
    &&& is_eligible(cands[d])
    &&& is_first_true(cands[d].queue_family_graphics@, q)
    &&& forall|j: int|
        0 <= j < cands.len() && is_eligible(#[trigger] cands[j]) ==> kind_rank(cands[d].kind)
            <= kind_rank(cands[j].kind)
    &&& forall|j: int|
        0 <= j < d && is_eligible(#[trigger] cands[j]) ==> kind_rank(cands[d].kind) < kind_rank(
            cands[j].kind,
        )
}

/// The rank of a device class in the default preference order.
pub fn device_kind_rank(k: DeviceKind) -> (r: u8)
    ensures
        r == kind_rank(k),
{
    match k {
        DeviceKind::DiscreteGpu => 0,
        DeviceKind::IntegratedGpu => 1,
        DeviceKind::VirtualGpu => 2,
        DeviceKind::Cpu => 3,
        DeviceKind::Other => 4,
        DeviceKind::Unknown => 5,
    }
}

/// The position of a device class in a table of ranks.
pub fn device_kind_index(k: DeviceKind) -> (r: usize)
    ensures
        r == kind_index(k),
{
    match k {
        DeviceKind::DiscreteGpu => 0,
        DeviceKind::IntegratedGpu => 1,
        DeviceKind::VirtualGpu => 2,
        DeviceKind::Cpu => 3,
        DeviceKind::Other => 4,
        DeviceKind::Unknown => 5,
    }
}

/// The default table of ranks: discrete, integrated, virtual, CPU, other, unknown.
pub fn default_device_ranks() -> (r: Vec<u8>)
    ensures
        r@ == default_ranks(),
        forall|k: DeviceKind| rank_in(r@, k) == kind_rank(k),
{
    let r = vec![0u8, 1u8, 2u8, 3u8, 4u8, 5u8];
    assert(r@ =~= default_ranks());
    r
}

/// The index of the first queue family that supports graphics operations. Vulkan numbers
/// queue families with `u32`, so families past `u32::MAX` are not looked at.
pub fn first_graphics_queue_family(flags: &Vec<bool>) -> (r: Option<u32>)
    ensures
        r matches Some(i) ==> is_first_true(flags@, i as int),
        r is None <==> !has_true(flags@),
{
    let mut i: usize = 0;
    while i < flags.len() && i as u64 <= u32::MAX as u64
        invariant
            i <= flags.len(),
            i <= u32::MAX as int + 1,
            forall|j: int| 0 <= j < i ==> !flags@[j],
        decreases flags.len() - i,
    {
        if flags[i] {
            return Some(i as u32);
        }
        i = i + 1;
    }
    None
}

/// Picks the physical device to render with, by a caller's preference: among the devices that
/// have the required extensions and a graphics-capable queue family, the first one whose class
/// has the least rank in `ranks` (indexed as `device_kind_index`). Returns its index in `cands`
/// and the index of its first graphics-capable queue family.
pub fn select_physical_device_ranked(cands: &Vec<DeviceCandidate>, ranks: &Vec<u8>) -> (r: Result<(usize, u32), SurfaceError>)
    requires
        ranks.len() == 6,
    ensures
        r matches Ok((d, q)) ==> is_ranked_selection(cands@, ranks@, d as int, q as int),
        r is Err <==> forall|i: int| 0 <= i < cands.len() ==> !is_eligible(#[trigger] cands@[i]),
        r matches Err(e) ==> e is NoSuitableDevice,
{
    let mut best: Option<(usize, u32, u8)> = None;
    let mut i: usize = 0;
    while i < cands.len()
        invariant
            i <= cands.len(),
            ranks.len() == 6,
            best is None <==> forall|k: int| 0 <= k < i ==> !is_eligible(#[trigger] cands@[k]),
            best matches Some((d, q, rk)) ==> {
                &&& d < i
                &&& rk == rank_in(ranks@, cands@[d as int].kind)
                &&& is_eligible(cands@[d as int])
                &&& is_first_true(cands@[d as int].queue_family_graphics@, q as int)
                &&& forall|j: int|
                    0 <= j < i && is_eligible(#[trigger] cands@[j]) ==> rk <= rank_in(ranks@, cands@[j].kind)
                &&& forall|j: int|
                    0 <= j < d && is_eligible(#[trigger] cands@[j]) ==> rk < rank_in(ranks@, cands@[j].kind)
            },
        decreases cands.len() - i,
    {
        let c = &cands[i];
        if c.has_required_extensions {
            match first_graphics_queue_family(&c.queue_family_graphics) {
                Some(q) => {
                    let rk = ranks[device_kind_index(c.kind)];
                    let better = match best {
                        None => true,
                        Some((_, _, brk)) => rk < brk,
                    };
                    if better {
                        best = Some((i, q, rk));
                    }
                },
                None => {},
            }
        }
        i = i + 1;
    }
    match best {
        Some((d, q, _)) => Ok((d, q)),
        None => Err(SurfaceError::NoSuitableDevice),
    }
}

/// Picks the physical device to render with: among the devices that have the required
/// extensions and a graphics-capable queue family, the first one of the most preferred class
/// (discrete, then integrated, virtual, CPU, other). Returns its index in `cands` and the
/// index of its first graphics-capable queue family.
pub fn select_physical_device(cands: &Vec<DeviceCandidate>) -> (r: Result<(usize, u32), SurfaceError>)
    ensures
        r matches Ok((d, q)) ==> is_selection(cands@, d as int, q as int),
        r is Err <==> forall|i: int| 0 <= i < cands.len() ==> !is_eligible(#[trigger] cands@[i]),
        r matches Err(e) ==> e is NoSuitableDevice,
{
    let ranks = default_device_ranks();
    select_physical_device_ranked(cands, &ranks)
}

} // verus!
