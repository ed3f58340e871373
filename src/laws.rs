use vstd::prelude::*;

use crate::device::{DeviceCandidate, DeviceKind, is_eligible, is_selection};
use crate::error::SurfaceError;
use crate::frames::{ImageInfo, PhysicalWindowSize, FRAMES_IN_FLIGHT, is_frame_set_for};
use crate::surface::{
    AcquireOutcome, PresentMode, PresentOutcome, SurfaceModel, advanced, allocation_failed,
    draw_index, drew, fresh_set_for, is_empty_size, model_wf, render_result, resize_target,
};

verus! {

/// The cursor after `k` completed offscreen frames from a fresh surface.
pub open spec fn index_after(k: nat) -> Option<usize>
    decreases k,
{
    if k == 0 {
        None
    } else {
        Some(advanced(index_after((k - 1) as nat)))
    }
}

/// A render call that succeeds leaves the surface at the size that was pending when it
/// started, or at the old size if none was, with a complete set of images of that size and the
/// fixed format (none for a size with no pixels). So after any run of successful render calls
/// the images have the size of the most recent resize.
pub proof fn lemma_render_applies_latest_size<R, A, Q, D, P>(
    o: SurfaceModel,
    n: SurfaceModel,
    r: Result<(), SurfaceError>,
    allocate: A,
    acquire: Q,
    draw: D,
    present: P,
) where
    A: Fn(PhysicalWindowSize) -> Result<(R, u64), SurfaceError>,
    Q: Fn() -> AcquireOutcome,
    D: Fn(u64, ImageInfo) -> Result<(), SurfaceError>,
    P: Fn(usize) -> PresentOutcome,

    requires
        model_wf(o),
        model_wf(n),
        render_result(o, n, r, allocate, acquire, draw, present),
        r is Ok,
    ensures
        n.size == match o.pending_resize {
            Some(s) => s,
            None => o.size,
        },
        !is_empty_size(n.size) ==> is_frame_set_for(n.images, n.size),
{
}

/// Two resize notifications before a render call: only the second size takes effect.
pub proof fn lemma_resizes_coalesce<R, A, Q, D, P>(
    o: SurfaceModel,
    first: PhysicalWindowSize,
    second: PhysicalWindowSize,
    n: SurfaceModel,
    r: Result<(), SurfaceError>,
    allocate: A,
    acquire: Q,
    draw: D,
    present: P,
) where
    A: Fn(PhysicalWindowSize) -> Result<(R, u64), SurfaceError>,
    Q: Fn() -> AcquireOutcome,
    D: Fn(u64, ImageInfo) -> Result<(), SurfaceError>,
    P: Fn(usize) -> PresentOutcome,

    requires
        model_wf(o),
        model_wf(n),
        render_result(
            (SurfaceModel {
                pending_resize: Some(second),
                ..(SurfaceModel { pending_resize: Some(first), ..o })
            }),
            n,
            r,
            allocate,
            acquire,
            draw,
            present,
        ),
        r is Ok,
    ensures
        n.size == second,
        !is_empty_size(second) ==> is_frame_set_for(n.images, second),
{
}

/// From a fresh surface, the frame after `k` completed offscreen frames draws into image
/// `k % FRAMES_IN_FLIGHT`, and leaves the cursor at `(k + 1) % FRAMES_IN_FLIGHT`: the images
/// are used in the order 0, 1, 2, 0, ... and none twice within any `FRAMES_IN_FLIGHT`
/// consecutive frames.
pub proof fn lemma_frame_index_cycles(k: nat)
    ensures
        draw_index(index_after(k)) == k % (FRAMES_IN_FLIGHT as nat),
        index_after(k + 1) == Some(((k + 1) % (FRAMES_IN_FLIGHT as nat)) as usize),
        forall|j: nat|
            k < j < k + FRAMES_IN_FLIGHT ==> #[trigger] draw_index(index_after(j)) != draw_index(
                index_after(k),
            ),
{
    lemma_draw_index_after(k);
    lemma_draw_index_after(k + 1);
    assert forall|j: nat| k < j < k + FRAMES_IN_FLIGHT implies #[trigger] draw_index(
        index_after(j),
    ) != draw_index(index_after(k)) by {
        lemma_draw_index_after(j);
        assert((j % 3) != (k % 3)) by (nonlinear_arith)
            requires
                k < j < k + 3,
        ;
    }
}

proof fn lemma_draw_index_after(k: nat)
    ensures
        draw_index(index_after(k)) == k % (FRAMES_IN_FLIGHT as nat),
        k > 0 ==> index_after(k) == Some((k % (FRAMES_IN_FLIGHT as nat)) as usize),
    decreases k,
{
    if k > 0 {
        lemma_draw_index_after((k - 1) as nat);
        assert(index_after(k) == Some(advanced(index_after((k - 1) as nat))));
    }
}

/// A successful offscreen render call draws into the image under the cursor and advances the
/// cursor by one step of the cycle.
pub proof fn lemma_offscreen_render_advances<R, A, Q, D, P>(
    o: SurfaceModel,
    n: SurfaceModel,
    r: Result<(), SurfaceError>,
    allocate: A,
    acquire: Q,
    draw: D,
    present: P,
) where
    A: Fn(PhysicalWindowSize) -> Result<(R, u64), SurfaceError>,
    Q: Fn() -> AcquireOutcome,
    D: Fn(u64, ImageInfo) -> Result<(), SurfaceError>,
    P: Fn(usize) -> PresentOutcome,

    requires
        o.mode == PresentMode::Offscreen,
        render_result(o, n, r, allocate, acquire, draw, present),
        !is_empty_size(n.size),
        r is Ok,
    ensures
        drew(n, draw_index(o.frame_index), draw, Ok(())),
        n.frame_index == Some(advanced(o.frame_index)),
{
    if let Ok(u) = r {
        // the unit value is the only one
        assert(r == Ok::<(), SurfaceError>(u));
    }
}

/// When acquiring reports the swapchain out of date, the render call succeeds without drawing,
/// and the next render call recreates the resources at the current size.
pub proof fn lemma_out_of_date_acquire_defers<R, A, Q, D, P>(
    o: SurfaceModel,
    n: SurfaceModel,
    r: Result<(), SurfaceError>,
    allocate: A,
    acquire: Q,
    draw: D,
    present: P,
) where
    A: Fn(PhysicalWindowSize) -> Result<(R, u64), SurfaceError>,
    Q: Fn() -> AcquireOutcome,
    D: Fn(u64, ImageInfo) -> Result<(), SurfaceError>,
    P: Fn(usize) -> PresentOutcome,

    requires
        o.mode == PresentMode::Swapchain,
        forall|a: AcquireOutcome| #[trigger] acquire.ensures((), a) ==> a is OutOfDate,
        render_result(o, n, r, allocate, acquire, draw, present),
        !(resize_target(o) is Some && r is Err),
        !is_empty_size(n.size),
    ensures
        r is Ok,
        n.recreate_requested,
        n.frame_index == o.frame_index,
        resize_target(n) == Some(n.size),
{
}

/// A render call that starts with a recreate request and no pending resize, and does not fail
/// in reallocating, replaces the frame resources with images that `allocate` made at the
/// current size.
pub proof fn lemma_recreate_request_reallocates<R, A, Q, D, P>(
    o: SurfaceModel,
    n: SurfaceModel,
    r: Result<(), SurfaceError>,
    allocate: A,
    acquire: Q,
    draw: D,
    present: P,
) where
    A: Fn(PhysicalWindowSize) -> Result<(R, u64), SurfaceError>,
    Q: Fn() -> AcquireOutcome,
    D: Fn(u64, ImageInfo) -> Result<(), SurfaceError>,
    P: Fn(usize) -> PresentOutcome,

    requires
        o.recreate_requested,
        o.pending_resize is None,
        render_result(o, n, r, allocate, acquire, draw, present),
        !allocation_failed(o, n, r, allocate),
    ensures
        fresh_set_for::<R, A>(n, o.size, allocate),
{
}

/// Of a discrete and an integrated device, both usable, the discrete one is selected.
pub proof fn lemma_discrete_preferred(cands: Seq<DeviceCandidate>, d: int, q: int)
    requires
        cands.len() == 2,
        is_eligible(cands[0]),
        is_eligible(cands[1]),
        (cands[0].kind == DeviceKind::DiscreteGpu && cands[1].kind == DeviceKind::IntegratedGpu)
            || (cands[0].kind == DeviceKind::IntegratedGpu && cands[1].kind
            == DeviceKind::DiscreteGpu),
        is_selection(cands, d, q),
    ensures
        cands[d].kind == DeviceKind::DiscreteGpu,
{
    assert(is_eligible(cands[0]) && is_eligible(cands[1]));
}

} // verus!
