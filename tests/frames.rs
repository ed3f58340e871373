use std::cell::Cell;

use vulkan_surface::error::SurfaceError;
use vulkan_surface::surface::VulkanSurface;
use vulkan_surface::frames::{
    image_info_for, FrameImage, ImageInfo, PhysicalWindowSize,
    PixelFormat, FRAMES_IN_FLIGHT,
};

#[test]
fn allocated_set_reports_requested_size_and_format() {
    let size = PhysicalWindowSize { width: 640, height: 480 };
    let next = Cell::new(7u64);
    let alloc = |s: PhysicalWindowSize| -> Result<(PhysicalWindowSize, u64), SurfaceError> {
        let h = next.get();
        next.set(h + 1);
        Ok((s, h))
    };
    let mut out: Vec<FrameImage<PhysicalWindowSize>> = Vec::new();
    VulkanSurface::recreate_size_dependent_resources(size, &alloc, &mut out).unwrap();
    assert_eq!(out.len(), FRAMES_IN_FLIGHT);
    assert_eq!(FRAMES_IN_FLIGHT, 3);
    for (i, im) in out.iter().enumerate() {
        assert_eq!(im.info, ImageInfo { width: 640, height: 480, format: PixelFormat::B8G8R8A8Unorm });
        assert_eq!(im.resources, size);
        assert_eq!(im.raw_handle, 7 + i as u64);
    }
}

#[test]
fn allocation_appends_after_existing_images() {
    let alloc = |_: PhysicalWindowSize| -> Result<((), u64), SurfaceError> { Ok(((), 1)) };
    let mut out: Vec<FrameImage<()>> = Vec::new();
    VulkanSurface::recreate_size_dependent_resources(PhysicalWindowSize { width: 1, height: 2 }, &alloc, &mut out).unwrap();
    VulkanSurface::recreate_size_dependent_resources(PhysicalWindowSize { width: 3, height: 4 }, &alloc, &mut out).unwrap();
    assert_eq!(out.len(), 6);
    assert_eq!((out[0].info.width, out[0].info.height), (1, 2));
    assert_eq!((out[5].info.width, out[5].info.height), (3, 4));
}

#[test]
fn failed_allocation_leaves_output_untouched() {
    let calls = Cell::new(0u32);
    let alloc = |_: PhysicalWindowSize| -> Result<((), u64), SurfaceError> {
        calls.set(calls.get() + 1);
        if calls.get() == 2 {
            Err(SurfaceError::ImageAllocationFailed("out of memory".to_string()))
        } else {
            Ok(((), 5))
        }
    };
    let mut out: Vec<FrameImage<()>> = Vec::new();
    let r = VulkanSurface::recreate_size_dependent_resources(PhysicalWindowSize { width: 8, height: 8 }, &alloc, &mut out);
    assert!(matches!(r, Err(SurfaceError::ImageAllocationFailed(m)) if m == "out of memory"));
    assert_eq!(out.len(), 0);
    assert_eq!(calls.get(), 2);
}

#[test]
fn image_view_failure_is_returned() {
    let alloc = |_: PhysicalWindowSize| -> Result<((), u64), SurfaceError> {
        Err(SurfaceError::ImageViewCreationFailed("bad view".to_string()))
    };
    let mut out: Vec<FrameImage<()>> = Vec::new();
    let r = VulkanSurface::recreate_size_dependent_resources(PhysicalWindowSize { width: 8, height: 8 }, &alloc, &mut out);
    assert!(matches!(r, Err(SurfaceError::ImageViewCreationFailed(_))));
}

#[test]
fn image_info_has_fixed_format() {
    let i = image_info_for(PhysicalWindowSize { width: 1024, height: 768 });
    assert_eq!(i, ImageInfo { width: 1024, height: 768, format: PixelFormat::B8G8R8A8Unorm });
}
