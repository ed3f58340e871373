use vstd::prelude::*;

use crate::error::SurfaceError;
use crate::frames::{
    FrameImage, ImageInfo, PhysicalWindowSize, FRAMES_IN_FLIGHT, image_info_for, infos, info_for,
    is_frame_set_for, raw_handles,
};

verus! {

/// How finished frames reach the screen.
#[derive(Debug, Clone, Copy, PartialEq, Eq, Structural)]
pub enum PresentMode {
    /// Images are plain render targets cycled round-robin; the caller shows the current one.
    Offscreen,
    /// Images come from a presentation swapchain, which names the image for each frame.
    Swapchain,
}

/// What asking the presentation layer for the next image gave.
#[derive(Debug, Clone)]
pub enum AcquireOutcome {
    /// The image at `index` is available; `suboptimal` asks for the swapchain to be recreated.
    Acquired { index: usize, suboptimal: bool },
    /// The surface changed and the swapchain must be recreated before drawing.
    OutOfDate,
    Failed(String),
}

/// What queuing a frame for presentation gave.
#[derive(Debug, Clone)]
pub enum PresentOutcome {
    Presented,
    /// The swapchain must be recreated; the frame was not shown.
    OutOfDate,
    Failed(String),
}

/// The abstract state of a surface.
pub struct SurfaceModel {
    /// The latest size requested since the last render, if any.
    pub pending_resize: Option<PhysicalWindowSize>,
    /// Set when the presentation layer asked for the swapchain to be recreated.
    pub recreate_requested: bool,
    /// The round-robin cursor of the offscreen variant: the image that the next frame draws
    /// into. There is none before the first completed frame, which draws into image 0.
    pub frame_index: Option<usize>,
    /// The size that the active frame-resource set was allocated at.
    pub size: PhysicalWindowSize,
    /// The size and format that each image of the active set was allocated with, in order.
    pub images: Seq<ImageInfo>,
    /// The native handle of each image of the active set, in order.
    pub handles: Seq<u64>,
    pub mode: PresentMode,
    pub instance_handle: u64,
    pub physical_device_handle: u64,
}

/// The image that an offscreen frame draws into, given the cursor.
pub open spec fn draw_index(f: Option<usize>) -> usize {
    match f {
        None => 0,
        Some(i) => i,
    }
}

/// The cursor after a completed offscreen frame: one step further, modulo the set size.
pub open spec fn advanced(f: Option<usize>) -> usize {
    ((draw_index(f) + 1) % (FRAMES_IN_FLIGHT as int)) as usize
}

/// A size with no pixels: the surface then holds no images and render calls do nothing.
pub open spec fn is_empty_size(s: PhysicalWindowSize) -> bool {
    s.width == 0 || s.height == 0
}

/// The size at which a render call starting in `o` reallocates the frame resources, if it does.
pub open spec fn resize_target(o: SurfaceModel) -> Option<PhysicalWindowSize> {
    match o.pending_resize {
        Some(s) => Some(s),
        None => if o.recreate_requested {
            Some(o.size)
        } else {
            None
        },
    }
}

pub open spec fn same_resources(o: SurfaceModel, n: SurfaceModel) -> bool {
    &&& n.size == o.size
    &&& n.images == o.images
    &&& n.handles == o.handles
}

/// The fields that a render call never changes, and the ones that it always clears.
pub open spec fn render_frame(o: SurfaceModel, n: SurfaceModel) -> bool {
    &&& n.pending_resize is None
    &&& n.mode == o.mode
    &&& n.instance_handle == o.instance_handle
    &&& n.physical_device_handle == o.physical_device_handle
}

/// The reallocation at the start of a render call failed with the error returned.
pub open spec fn allocation_failed<R, A: Fn(PhysicalWindowSize) -> Result<(R, u64), SurfaceError>>(
    o: SurfaceModel,
    n: SurfaceModel,
    r: Result<(), SurfaceError>,
    allocate: A,
) -> bool {
    &&& resize_target(o) is Some
    &&& r is Err
    &&& allocate.ensures((resize_target(o).unwrap(),), Err(r->Err_0))
    &&& same_resources(o, n)
    &&& n.frame_index == o.frame_index
    &&& !n.recreate_requested
}

/// `h` is the handle of an image that `allocate` made successfully at `s`.
pub open spec fn allocated_at<R, A: Fn(PhysicalWindowSize) -> Result<(R, u64), SurfaceError>>(
    allocate: A,
    s: PhysicalWindowSize,
    h: u64,
) -> bool {
    exists|res: R| #[trigger] allocate.ensures((s,), Ok((res, h)))
}

/// The active set of `m` is a fresh one for `s`: none for a size with no pixels, otherwise a
/// complete set of that size whose every image `allocate` made at `s`.
pub open spec fn fresh_set_for<R, A: Fn(PhysicalWindowSize) -> Result<(R, u64), SurfaceError>>(
    m: SurfaceModel,
    s: PhysicalWindowSize,
    allocate: A,
) -> bool {
    &&& m.size == s
    &&& if is_empty_size(s) {
        m.images.len() == 0 && m.handles.len() == 0
    } else {
        &&& is_frame_set_for(m.images, s)
        &&& m.handles.len() == FRAMES_IN_FLIGHT
        &&& forall|i: int| 0 <= i < m.handles.len() ==> allocated_at::<R, A>(allocate, s, #[trigger] m.handles[i])
    }
}

/// The active frame-resource set of `n` is the one that a render call starting in `o` needs:
/// a fresh one where a resize or a recreate request was pending, the old one otherwise.
pub open spec fn resources_ready<R, A: Fn(PhysicalWindowSize) -> Result<(R, u64), SurfaceError>>(
    o: SurfaceModel,
    n: SurfaceModel,
    allocate: A,
) -> bool {
    match resize_target(o) {
        Some(s) => fresh_set_for::<R, A>(n, s, allocate),
        None => same_resources(o, n),
    }
}

/// Image `idx` of `n` was drawn by `draw`, which returned `d`.
pub open spec fn drew<D: Fn(u64, ImageInfo) -> Result<(), SurfaceError>>(
    n: SurfaceModel,
    idx: usize,
    draw: D,
    d: Result<(), SurfaceError>,
) -> bool {
    draw.ensures((n.handles[idx as int], n.images[idx as int]), d)
}

/// An offscreen frame: the image under the cursor is drawn; the cursor advances only when
/// drawing succeeded.
pub open spec fn offscreen_frame<D: Fn(u64, ImageInfo) -> Result<(), SurfaceError>>(
    o: SurfaceModel,
    n: SurfaceModel,
    r: Result<(), SurfaceError>,
    draw: D,
) -> bool {
    &&& !n.recreate_requested
    &&& drew(n, draw_index(o.frame_index), draw, r)
    &&& n.frame_index == if r is Ok {
        Some(advanced(o.frame_index))
    } else {
        o.frame_index
    }
}

/// A swapchain frame, given what acquiring gave. The image comes from the acquire call, so the
/// offscreen cursor is left alone.
pub open spec fn swapchain_frame<
    D: Fn(u64, ImageInfo) -> Result<(), SurfaceError>,
    P: Fn(usize) -> PresentOutcome,
>(
    o: SurfaceModel,
    n: SurfaceModel,
    r: Result<(), SurfaceError>,
    a: AcquireOutcome,
    draw: D,
    present: P,
) -> bool {
    match a {
        AcquireOutcome::OutOfDate => r is Ok && n.recreate_requested && n.frame_index == o.frame_index,
        AcquireOutcome::Failed(m) => r == Err::<(), SurfaceError>(SurfaceError::AcquireFailed(m))
            && !n.recreate_requested && n.frame_index == o.frame_index,
        AcquireOutcome::Acquired { index, suboptimal } => if index >= FRAMES_IN_FLIGHT {
            r matches Err(e) && e is AcquireFailed && n.recreate_requested == suboptimal
                && n.frame_index == o.frame_index
        } else {
            ||| {
                &&& r is Err
                &&& drew(n, index, draw, r)
                &&& n.recreate_requested == suboptimal
                &&& n.frame_index == o.frame_index
            }
            ||| {
                &&& drew(n, index, draw, Ok(()))
                &&& n.frame_index == o.frame_index
                &&& exists|p: PresentOutcome| #[trigger]
                    present.ensures((index,), p) && match p {
                        PresentOutcome::Presented => r is Ok && n.recreate_requested == suboptimal,
                        PresentOutcome::OutOfDate => r is Ok && n.recreate_requested,
                        PresentOutcome::Failed(m) => r == Err::<(), SurfaceError>(
                            SurfaceError::PresentFailed(m),
                        ) && n.recreate_requested == suboptimal,
                    }
            }
        },
    }
}

/// What a render call that starts in `o` and ends in `n`, returning `r`, did.
pub open spec fn render_result<
    R,
    A: Fn(PhysicalWindowSize) -> Result<(R, u64), SurfaceError>,
    Q: Fn() -> AcquireOutcome,
    D: Fn(u64, ImageInfo) -> Result<(), SurfaceError>,
    P: Fn(usize) -> PresentOutcome,
>(
    o: SurfaceModel,
    n: SurfaceModel,
    r: Result<(), SurfaceError>,
    allocate: A,
    acquire: Q,
    draw: D,
    present: P,
) -> bool {
    &&& render_frame(o, n)
    &&& allocation_failed(o, n, r, allocate) || {
        &&& resources_ready::<R, A>(o, n, allocate)
        &&& is_empty_size(n.size) ==> {
            &&& r is Ok
            &&& n.frame_index == o.frame_index
            &&& !n.recreate_requested
        }
        &&& !is_empty_size(n.size) && o.mode == PresentMode::Offscreen ==> offscreen_frame(
            o,
            n,
            r,
            draw,
        )
        &&& !is_empty_size(n.size) && o.mode == PresentMode::Swapchain ==> exists|
            a: AcquireOutcome,
        | #[trigger] acquire.ensures((), a) && swapchain_frame(o, n, r, a, draw, present)
    }
}

/// No images for a size with no pixels, otherwise a complete set of images of the current
/// size; a cursor within the set.
pub open spec fn model_wf(m: SurfaceModel) -> bool {
    &&& if is_empty_size(m.size) {
        m.images.len() == 0 && m.handles.len() == 0
    } else {
        is_frame_set_for(m.images, m.size) && m.handles.len() == FRAMES_IN_FLIGHT
    }
    &&& m.frame_index matches Some(i) ==> i < FRAMES_IN_FLIGHT
}

/// Images that `allocate` made at `s` carry handles allocated at `s`.
proof fn lemma_fresh_images<R, A: Fn(PhysicalWindowSize) -> Result<(R, u64), SurfaceError>>(
    images: Seq<FrameImage<R>>,
    s: PhysicalWindowSize,
    allocate: A,
)
    requires
        forall|i: int|
            0 <= i < images.len() ==> allocate.ensures(
                (s,),
                Ok(((#[trigger] images[i]).resources, images[i].raw_handle)),
            ),
    ensures
        forall|i: int|
            0 <= i < images.len() ==> allocated_at::<R, A>(allocate, s, #[trigger] raw_handles(images)[i]),
{
    assert forall|i: int| 0 <= i < images.len() implies allocated_at::<R, A>(
        allocate,
        s,
        #[trigger] raw_handles(images)[i],
    ) by {
        assert(allocate.ensures((s,), Ok((images[i].resources, images[i].raw_handle))));
    }
}

/// Renders into a window's images with Vulkan: owns the frame-resource set and drives the
/// per-frame protocol. The device work (allocating images, acquiring, drawing and submitting,
/// presenting) is handed in by the caller as functions.
pub struct VulkanSurface<R> {
    resize_event: Option<PhysicalWindowSize>,
    recreate_swapchain: bool,
    frame_index: Option<usize>,
    size: PhysicalWindowSize,
    images: Vec<FrameImage<R>>,
    mode: PresentMode,
    instance_handle: u64,
    device_handle: u64,
}

impl<R> View for VulkanSurface<R> {
    type V = SurfaceModel;

    closed spec fn view(&self) -> SurfaceModel {
        SurfaceModel {
            pending_resize: self.resize_event,
            recreate_requested: self.recreate_swapchain,
            frame_index: self.frame_index,
            size: self.size,
            images: infos(self.images@),
            handles: raw_handles(self.images@),
            mode: self.mode,
            instance_handle: self.instance_handle,
            physical_device_handle: self.device_handle,
        }
    }
}

impl<R> VulkanSurface<R> {
    /// See `model_wf`.
    pub open spec fn wf(&self) -> bool {
        model_wf(self@)
    }

    /// Creates a surface on an initialized device: allocates the first frame-resource set at
    /// `size` with `allocate` (none for a size with no pixels). No frame has been rendered yet,
    /// so there is no cursor.
    pub fn from_resources<A>(
        instance_handle: u64,
        physical_device_handle: u64,
        size: PhysicalWindowSize,
        mode: PresentMode,
        allocate: &A,
    ) -> (r: Result<Self, SurfaceError>) where
        A: Fn(PhysicalWindowSize) -> Result<(R, u64), SurfaceError>,
        requires
            forall|s: PhysicalWindowSize| #[trigger] allocate.requires((s,)),
        ensures
            r matches Ok(sf) ==> {
                &&& sf.wf()
                &&& fresh_set_for::<R, A>(sf@, size, *allocate)
                &&& sf@.pending_resize is None
                &&& !sf@.recreate_requested
                &&& sf@.frame_index is None
                &&& sf@.mode == mode
                &&& sf@.instance_handle == instance_handle
                &&& sf@.physical_device_handle == physical_device_handle
            },
            r matches Err(e) ==> !is_empty_size(size) && allocate.ensures((size,), Err(e)),
    {
        let mut images: Vec<FrameImage<R>> = Vec::new();
        if size.width != 0 && size.height != 0 {
            match Self::recreate_size_dependent_resources(size, allocate, &mut images) {
                Ok(()) => {},
                Err(e) => {
                    return Err(e);
                },
            }
            proof {
                assert(images@.subrange(0, images@.len() as int) =~= images@);
                lemma_fresh_images(images@, size, *allocate);
            }
        }
        Ok(VulkanSurface {
            resize_event: None,
            recreate_swapchain: false,
            frame_index: None,
            size,
            images,
            mode,
            instance_handle,
            device_handle: physical_device_handle,
        })
    }

    /// Allocates a new frame-resource set at `size`: `FRAMES_IN_FLIGHT` images, each made by one
    /// call of `allocate` (which creates an image of the fixed format and its default view, and
    /// hands back both with the image's native handle), appended to `output_images`.
    ///
    /// All or nothing: on the first failed allocation that error is returned and `output_images`
    /// is left as it was; the images already made are released.
    pub fn recreate_size_dependent_resources<A>(
        size: PhysicalWindowSize,
        allocate: &A,
        output_images: &mut Vec<FrameImage<R>>,
    ) -> (r: Result<(), SurfaceError>) where A: Fn(PhysicalWindowSize) -> Result<(R, u64), SurfaceError>
        requires
            forall|s: PhysicalWindowSize| #[trigger] allocate.requires((s,)),
            old(output_images).len() + FRAMES_IN_FLIGHT <= usize::MAX,
        ensures
            r is Ok ==> {
                &&& final(output_images)@.len() == old(output_images)@.len() + FRAMES_IN_FLIGHT
                &&& final(output_images)@.subrange(0, old(output_images)@.len() as int) == old(
                    output_images,
                )@
                &&& is_frame_set_for(
                    infos(final(output_images)@.subrange(
                        old(output_images)@.len() as int,
                        final(output_images)@.len() as int,
                    )),
                    size,
                )
                &&& forall|i: int|
                    old(output_images)@.len() <= i < final(output_images)@.len() ==> allocate.ensures(
                        (size,),
                        Ok(((#[trigger] final(output_images)@[i]).resources, final(output_images)@[i].raw_handle)),
                    )
            },
            r matches Err(e) ==> {
                &&& final(output_images)@ == old(output_images)@
                &&& allocate.ensures((size,), Err(e))
            },
    {
        let info = image_info_for(size);
        let mut fresh: Vec<FrameImage<R>> = Vec::new();
        let mut n: usize = 0;
        while n < FRAMES_IN_FLIGHT
            invariant
                n <= FRAMES_IN_FLIGHT,
                fresh@.len() == n,
                info == info_for(size),
                forall|s: PhysicalWindowSize| #[trigger] allocate.requires((s,)),
                forall|i: int| 0 <= i < n ==> (#[trigger] fresh@[i]).info == info,
                forall|i: int|
                    0 <= i < n ==> allocate.ensures(
                        (size,),
                        Ok(((#[trigger] fresh@[i]).resources, fresh@[i].raw_handle)),
                    ),
            decreases FRAMES_IN_FLIGHT - n,
        {
            match allocate(size) {
                Ok((resources, raw_handle)) => {
                    fresh.push(FrameImage { resources, raw_handle, info });
                },
                Err(e) => {
                    return Err(e);
                },
            }
            n = n + 1;
        }
        let ghost start = old(output_images)@.len();
        let ghost fresh_all = fresh@;
        output_images.append(&mut fresh);
        proof {
            let tail = output_images@.subrange(start as int, output_images@.len() as int);
            assert(tail =~= fresh_all);
            assert(output_images@.subrange(0, start as int) =~= old(output_images)@);
            assert forall|i: int|
                start <= i < output_images@.len() implies allocate.ensures(
                    (size,),
                    Ok(((#[trigger] output_images@[i]).resources, output_images@[i].raw_handle)),
                ) by {
                assert(output_images@[i] == fresh_all[i - start]);
            }
        }
        Ok(())
    }

    /// The raw handle of the Vulkan instance.
    pub fn raw_vulkan_instance_handle(&self) -> (r: u64)
        ensures
            r == self@.instance_handle,
    {
        self.instance_handle
    }

    /// The raw handle of the physical device.
    pub fn raw_vulkan_physical_device_handle(&self) -> (r: u64)
        ensures
            r == self@.physical_device_handle,
    {
        self.device_handle
    }

    /// The round-robin cursor: the image that the next offscreen frame draws into. Asking before
    /// any frame was completed is a usage error.
    pub fn current_vulkan_frame_index(&self) -> (r: usize)
        requires
            self@.frame_index is Some,
        ensures
            self@.frame_index == Some(r),
    {
        self.frame_index.unwrap()
    }

    /// The size that the active frame-resource set was allocated at; a size with no pixels
    /// means that there are no images.
    pub fn size(&self) -> (r: PhysicalWindowSize)
        ensures
            r == self@.size,
    {
        self.size
    }

    /// The round-robin cursor, if a frame has been completed.
    pub fn frame_index(&self) -> (r: Option<usize>)
        ensures
            r == self@.frame_index,
    {
        self.frame_index
    }

    /// The native handle of the image under the round-robin cursor.
    pub fn current_raw_offscreen_vulkan_image_handle(&self) -> (r: u64)
        requires
            self.wf(),
            self@.frame_index is Some,
            !is_empty_size(self@.size),
        ensures
            r == self@.handles[self@.frame_index.unwrap() as int],
    {
        let i = self.current_vulkan_frame_index();
        self.images[i].raw_handle
    }

    /// Records a new window size. It takes effect at the start of the next render call; of
    /// several sizes recorded between two render calls only the last one does.
    pub fn resize_event(&mut self, size: PhysicalWindowSize) -> (r: Result<(), SurfaceError>)
        ensures
            r is Ok,
            final(self)@ == (SurfaceModel { pending_resize: Some(size), ..old(self)@ }),
    {
        self.resize_event = Some(size);
        Ok(())
    }

    /// Takes the pending resize, or the recreate request, and reallocates the frame-resource set
    /// for it. The new set replaces the old one whole, and only once it is complete.
    fn apply_pending_resize<A>(&mut self, allocate: &A) -> (r: Result<(), SurfaceError>) where
        A: Fn(PhysicalWindowSize) -> Result<(R, u64), SurfaceError>,
        requires
            old(self).wf(),
            forall|s: PhysicalWindowSize| #[trigger] allocate.requires((s,)),
        ensures
            final(self).wf(),
            render_frame(old(self)@, final(self)@),
            !final(self)@.recreate_requested,
            final(self)@.frame_index == old(self)@.frame_index,
            r is Err ==> allocation_failed(old(self)@, final(self)@, r, *allocate),
            r is Ok ==> resources_ready::<R, A>(old(self)@, final(self)@, *allocate),
    {
        let target = match self.resize_event.take() {
            Some(s) => Some(s),
            None => if self.recreate_swapchain {
                Some(self.size)
            } else {
                None
            },
        };
        self.recreate_swapchain = false;
        match target {
            None => Ok(()),
            Some(s) => {
                let mut new_images: Vec<FrameImage<R>> = Vec::new();
                if s.width != 0 && s.height != 0 {
                    match Self::recreate_size_dependent_resources(s, allocate, &mut new_images) {
                        Ok(()) => {},
                        Err(e) => {
                            return Err(e);
                        },
                    }
                    proof {
                        assert(new_images@.subrange(0, new_images@.len() as int) =~= new_images@);
                        lemma_fresh_images(new_images@, s, *allocate);
                    }
                }
                self.images = new_images;
                self.size = s;
                Ok(())
            },
        }
    }

    /// Renders one frame.
    ///
    /// First a pending resize (or a recreate request of the presentation layer) reallocates
    /// the frame resources with `allocate`. A size with no pixels leaves no images, and the call
    /// then returns success without drawing. Otherwise the image to draw into is chosen:
    /// offscreen, the one under the round-robin cursor, which advances once the frame is drawn;
    /// with a swapchain, the one that `acquire` names (an
    /// out-of-date swapchain makes the call return success at once and asks for recreation on
    /// the next call). `draw` then draws into that image and waits until the device has
    /// finished. With a swapchain, `present` queues the image for display; out-of-date there
    /// asks for recreation, any other failure is returned. The surface stays usable after
    /// every error.
    pub fn render<A, Q, D, P>(
        &mut self,
        allocate: &A,
        acquire: &Q,
        draw: &D,
        present: &P,
    ) -> (r: Result<(), SurfaceError>) where
        A: Fn(PhysicalWindowSize) -> Result<(R, u64), SurfaceError>,
        Q: Fn() -> AcquireOutcome,
        D: Fn(u64, ImageInfo) -> Result<(), SurfaceError>,
        P: Fn(usize) -> PresentOutcome,
        requires
            old(self).wf(),
            forall|s: PhysicalWindowSize| #[trigger] allocate.requires((s,)),
            acquire.requires(()),
            forall|h: u64, i: ImageInfo| #[trigger] draw.requires((h, i)),
            forall|i: usize| #[trigger] present.requires((i,)),
        ensures
            final(self).wf(),
            render_result(old(self)@, final(self)@, r, *allocate, *acquire, *draw, *present),
    {
        match self.apply_pending_resize(allocate) {
            Ok(()) => {},
            Err(e) => {
                return Err(e);
            },
        }
        if self.images.len() == 0 {
            return Ok(());
        }
        match self.mode {
            PresentMode::Offscreen => {
                let idx: usize = match self.frame_index {
                    None => 0,
                    Some(i) => i,
                };
                let d = draw(self.images[idx].raw_handle, self.images[idx].info);
                if d.is_ok() {
                    self.frame_index = Some((idx + 1) % FRAMES_IN_FLIGHT);
                }
                d
            },
            PresentMode::Swapchain => {
                let a = acquire();
                assert(acquire.ensures((), a));
                match a {
                    AcquireOutcome::OutOfDate => {
                        self.recreate_swapchain = true;
                        Ok(())
                    },
                    AcquireOutcome::Failed(m) => Err(SurfaceError::AcquireFailed(m)),
                    AcquireOutcome::Acquired { index, suboptimal } => {
                        if suboptimal {
                            self.recreate_swapchain = true;
                        }
                        if index >= self.images.len() {
                            return Err(
                                SurfaceError::AcquireFailed(
                                    "acquired image index is out of range".to_owned(),
                                ),
                            );
                        }
                        let d = draw(self.images[index].raw_handle, self.images[index].info);
                        if d.is_err() {
                            return d;
                        }
                        if let Ok(u) = d {
                            // the unit value is the only one
                            assert(d == Ok::<(), SurfaceError>(u));
                        }
                        assert(drew(self@, index, *draw, Ok(())));
                        let p = present(index);
                        assert(present.ensures((index,), p));
                        match p {
                            PresentOutcome::Presented => Ok(()),
                            PresentOutcome::OutOfDate => {
                                self.recreate_swapchain = true;
                                Ok(())
                            },
                            PresentOutcome::Failed(m) => Err(SurfaceError::PresentFailed(m)),
                        }
                    },
                }
            },
        }
    }

    /// How many bits each pixel of the frame images takes.
    pub fn bits_per_pixel(&self) -> (r: Result<u8, SurfaceError>)
        ensures
            r == Ok::<u8, SurfaceError>(32),
    {
        Ok(32)
    }

    /// The name of this kind of surface.
    pub fn name(&self) -> (r: &'static str)
        ensures
            r@ == "vulkan"@,
    {
        "vulkan"
    }
}

} // verus!
