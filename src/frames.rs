use vstd::prelude::*;

verus! {

/// Number of images in a frame-resource set: triple buffering. Must be nonzero.
pub const FRAMES_IN_FLIGHT: usize = 3;

/// A window size in physical pixels.
#[derive(Debug, Clone, Copy, PartialEq, Eq, Structural)]
pub struct PhysicalWindowSize {
    pub width: u32,
    pub height: u32,
}

/// Pixel formats that a frame image may report.
#[derive(Debug, Clone, Copy, PartialEq, Eq, Structural)]
pub enum PixelFormat {
    /// 32 bits per pixel, BGRA order, unsigned normalized.
    B8G8R8A8Unorm,
    Other,
}

/// Dimensions and format of one image of a frame-resource set.
#[derive(Debug, Clone, Copy, PartialEq, Eq, Structural)]
pub struct ImageInfo {
    pub width: u32,
    pub height: u32,
    pub format: PixelFormat,
}

/// One render-target image with its view, as allocated on the device, and the size and format
/// it was allocated with.
pub struct FrameImage<R> {
    /// The device objects of the image and its view.
    pub resources: R,
    /// The native handle of the image.
    pub raw_handle: u64,
    pub info: ImageInfo,
}

/// The image description that every image of a set allocated at `size` carries.
pub open spec fn info_for(size: PhysicalWindowSize) -> ImageInfo {
    ImageInfo { width: size.width, height: size.height, format: PixelFormat::B8G8R8A8Unorm }
}

/// The descriptions of a set of images.
pub open spec fn infos<R>(images: Seq<FrameImage<R>>) -> Seq<ImageInfo> {
    images.map_values(|im: FrameImage<R>| im.info)
}

/// The native handles of a set of images.
pub open spec fn raw_handles<R>(images: Seq<FrameImage<R>>) -> Seq<u64> {
    images.map_values(|im: FrameImage<R>| im.raw_handle)
}

/// A complete frame-resource set for `size`: `FRAMES_IN_FLIGHT` images, all of that size and
/// of the fixed format.
pub open spec fn is_frame_set_for(images: Seq<ImageInfo>, size: PhysicalWindowSize) -> bool {
    &&& images.len() == FRAMES_IN_FLIGHT
    &&& forall|i: int| 0 <= i < images.len() ==> #[trigger] images[i] == info_for(size)
}

/// The description of an image allocated at `size`.
pub fn image_info_for(size: PhysicalWindowSize) -> (r: ImageInfo)
    ensures
        r == info_for(size),
{
    ImageInfo { width: size.width, height: size.height, format: PixelFormat::B8G8R8A8Unorm }
}

} // verus!
