use std::cell::{Cell, RefCell};

use vulkan_surface::error::SurfaceError;
use vulkan_surface::frames::{ImageInfo, PhysicalWindowSize, PixelFormat};
use vulkan_surface::surface::{AcquireOutcome, PresentMode, PresentOutcome, VulkanSurface};

struct Device {
    next_handle: Cell<u64>,
    allocations: RefCell<Vec<PhysicalWindowSize>>,
    drawn: RefCell<Vec<(u64, ImageInfo)>>,
    acquire_results: RefCell<Vec<AcquireOutcome>>,
    present_results: RefCell<Vec<PresentOutcome>>,
    presented: RefCell<Vec<usize>>,
    fail_draw: Cell<bool>,
}

impl Device {
    fn new() -> Device {
        Device {
            next_handle: Cell::new(1000),
            allocations: RefCell::new(Vec::new()),
            drawn: RefCell::new(Vec::new()),
            acquire_results: RefCell::new(Vec::new()),
            present_results: RefCell::new(Vec::new()),
            presented: RefCell::new(Vec::new()),
            fail_draw: Cell::new(false),
        }
    }

    fn allocate(&self, s: PhysicalWindowSize) -> Result<(u8, u64), SurfaceError> {
        self.allocations.borrow_mut().push(s);
        let h = self.next_handle.get();
        self.next_handle.set(h + 1);
        Ok((0, h))
    }

    fn acquire(&self) -> AcquireOutcome {
        self.acquire_results.borrow_mut().remove(0)
    }

    fn draw(&self, h: u64, info: ImageInfo) -> Result<(), SurfaceError> {
        if self.fail_draw.get() {
            return Err(SurfaceError::DrawableSurfaceCreationFailed);
        }
        self.drawn.borrow_mut().push((h, info));
        Ok(())
    }

    fn present(&self, i: usize) -> PresentOutcome {
        self.presented.borrow_mut().push(i);
        self.present_results.borrow_mut().remove(0)
    }

    fn render(&self, s: &mut VulkanSurface<u8>) -> Result<(), SurfaceError> {
        s.render(&|z| self.allocate(z), &|| self.acquire(), &|h, i| self.draw(h, i), &|i| self.present(i))
    }

    fn surface(&self, size: PhysicalWindowSize, mode: PresentMode) -> VulkanSurface<u8> {
        VulkanSurface::from_resources(11, 22, size, mode, &|z| self.allocate(z)).unwrap()
    }

    fn last_drawn(&self) -> (u64, ImageInfo) {
        *self.drawn.borrow().last().unwrap()
    }
}

fn size(width: u32, height: u32) -> PhysicalWindowSize {
    PhysicalWindowSize { width, height }
}

fn info(width: u32, height: u32) -> ImageInfo {
    ImageInfo { width, height, format: PixelFormat::B8G8R8A8Unorm }
}

#[test]
fn construction_allocates_one_set() {
    let dev = Device::new();
    let s = dev.surface(size(100, 50), PresentMode::Offscreen);
    assert_eq!(*dev.allocations.borrow(), vec![size(100, 50); 3]);
    assert_eq!(s.raw_vulkan_instance_handle(), 11);
    assert_eq!(s.raw_vulkan_physical_device_handle(), 22);
    assert_eq!(s.bits_per_pixel().unwrap(), 32);
    assert_eq!(s.name(), "vulkan");
}

#[test]
fn construction_fails_when_allocation_fails() {
    let alloc = |_: PhysicalWindowSize| -> Result<(u8, u64), SurfaceError> {
        Err(SurfaceError::ImageAllocationFailed("no memory".to_string()))
    };
    let r = VulkanSurface::from_resources(1, 2, size(10, 10), PresentMode::Offscreen, &alloc);
    assert!(matches!(r, Err(SurfaceError::ImageAllocationFailed(_))));
}

#[test]
fn offscreen_frame_index_cycles() {
    let dev = Device::new();
    let mut s = dev.surface(size(10, 10), PresentMode::Offscreen);
    assert_eq!(s.frame_index(), None);
    let mut seen = Vec::new();
    for _ in 0..7 {
        dev.render(&mut s).unwrap();
        seen.push(s.current_vulkan_frame_index());
        assert_eq!(s.current_raw_offscreen_vulkan_image_handle(), 1000 + s.current_vulkan_frame_index() as u64);
    }
    assert_eq!(seen, vec![1, 2, 0, 1, 2, 0, 1]);
    let handles: Vec<u64> = dev.drawn.borrow().iter().map(|d| d.0).collect();
    assert_eq!(handles, vec![1000, 1001, 1002, 1000, 1001, 1002, 1000]);
}

#[test]
fn resize_takes_effect_at_next_render() {
    let dev = Device::new();
    let mut s = dev.surface(size(10, 10), PresentMode::Offscreen);
    s.resize_event(size(300, 200)).unwrap();
    assert_eq!(dev.allocations.borrow().len(), 3);
    for _ in 0..3 {
        dev.render(&mut s).unwrap();
        assert_eq!(dev.last_drawn().1, info(300, 200));
    }
    assert_eq!(dev.allocations.borrow().len(), 6);
}

#[test]
fn two_resizes_before_render_keep_the_second() {
    let dev = Device::new();
    let mut s = dev.surface(size(10, 10), PresentMode::Offscreen);
    s.resize_event(size(800, 600)).unwrap();
    s.resize_event(size(1024, 768)).unwrap();
    dev.render(&mut s).unwrap();
    assert_eq!(dev.last_drawn().1, info(1024, 768));
    assert_eq!(dev.allocations.borrow()[3..].to_vec(), vec![size(1024, 768); 3]);
}

#[test]
fn failed_draw_keeps_frame_index() {
    let dev = Device::new();
    let mut s = dev.surface(size(10, 10), PresentMode::Offscreen);
    dev.render(&mut s).unwrap();
    dev.fail_draw.set(true);
    assert!(matches!(dev.render(&mut s), Err(SurfaceError::DrawableSurfaceCreationFailed)));
    assert_eq!(s.current_vulkan_frame_index(), 1);
    dev.fail_draw.set(false);
    dev.render(&mut s).unwrap();
    assert_eq!(dev.last_drawn().0, 1001);
    assert_eq!(s.current_vulkan_frame_index(), 2);
}

#[test]
fn failed_resize_keeps_old_images() {
    let dev = Device::new();
    let mut s = dev.surface(size(10, 10), PresentMode::Offscreen);
    s.resize_event(size(20, 20)).unwrap();
    let fail = |_: PhysicalWindowSize| -> Result<(u8, u64), SurfaceError> {
        Err(SurfaceError::ImageAllocationFailed("none".to_string()))
    };
    let r = s.render(&fail, &|| dev.acquire(), &|h, i| dev.draw(h, i), &|i| dev.present(i));
    assert!(matches!(r, Err(SurfaceError::ImageAllocationFailed(_))));
    dev.render(&mut s).unwrap();
    assert_eq!(dev.last_drawn(), (1000, info(10, 10)));
}

#[test]
fn swapchain_out_of_date_acquire_succeeds_and_recreates_next_time() {
    let dev = Device::new();
    let mut s = dev.surface(size(40, 30), PresentMode::Swapchain);
    dev.acquire_results.borrow_mut().push(AcquireOutcome::OutOfDate);
    dev.render(&mut s).unwrap();
    assert!(dev.drawn.borrow().is_empty());
    assert_eq!(dev.allocations.borrow().len(), 3);
    dev.acquire_results.borrow_mut().push(AcquireOutcome::Acquired { index: 2, suboptimal: false });
    dev.present_results.borrow_mut().push(PresentOutcome::Presented);
    dev.render(&mut s).unwrap();
    assert_eq!(dev.allocations.borrow().len(), 6);
    assert_eq!(dev.last_drawn(), (1005, info(40, 30)));
    assert_eq!(*dev.presented.borrow(), vec![2]);
    assert_eq!(s.frame_index(), None);
}

#[test]
fn swapchain_suboptimal_draws_and_recreates_next_time() {
    let dev = Device::new();
    let mut s = dev.surface(size(40, 30), PresentMode::Swapchain);
    dev.acquire_results.borrow_mut().push(AcquireOutcome::Acquired { index: 1, suboptimal: true });
    dev.present_results.borrow_mut().push(PresentOutcome::Presented);
    dev.render(&mut s).unwrap();
    assert_eq!(dev.last_drawn().0, 1001);
    assert_eq!(dev.allocations.borrow().len(), 3);
    dev.acquire_results.borrow_mut().push(AcquireOutcome::Acquired { index: 0, suboptimal: false });
    dev.present_results.borrow_mut().push(PresentOutcome::Presented);
    dev.render(&mut s).unwrap();
    assert_eq!(dev.allocations.borrow().len(), 6);
    dev.acquire_results.borrow_mut().push(AcquireOutcome::Acquired { index: 0, suboptimal: false });
    dev.present_results.borrow_mut().push(PresentOutcome::Presented);
    dev.render(&mut s).unwrap();
    assert_eq!(dev.allocations.borrow().len(), 6);
}

#[test]
fn swapchain_acquire_failure_is_returned() {
    let dev = Device::new();
    let mut s = dev.surface(size(4, 4), PresentMode::Swapchain);
    dev.acquire_results.borrow_mut().push(AcquireOutcome::Failed("device lost".to_string()));
    let r = dev.render(&mut s);
    assert!(matches!(r, Err(SurfaceError::AcquireFailed(m)) if m == "device lost"));
    dev.acquire_results.borrow_mut().push(AcquireOutcome::Acquired { index: 5, suboptimal: false });
    assert!(matches!(dev.render(&mut s), Err(SurfaceError::AcquireFailed(_))));
    assert!(dev.drawn.borrow().is_empty());
}

#[test]
fn swapchain_present_failure_is_returned_and_surface_stays_usable() {
    let dev = Device::new();
    let mut s = dev.surface(size(4, 4), PresentMode::Swapchain);
    dev.acquire_results.borrow_mut().push(AcquireOutcome::Acquired { index: 1, suboptimal: false });
    dev.present_results.borrow_mut().push(PresentOutcome::Failed("lost".to_string()));
    assert!(matches!(dev.render(&mut s), Err(SurfaceError::PresentFailed(m)) if m == "lost"));
    dev.acquire_results.borrow_mut().push(AcquireOutcome::Acquired { index: 2, suboptimal: false });
    dev.present_results.borrow_mut().push(PresentOutcome::Presented);
    dev.render(&mut s).unwrap();
    assert_eq!(*dev.presented.borrow(), vec![1, 2]);
    assert_eq!(dev.allocations.borrow().len(), 3);
}

#[test]
fn swapchain_out_of_date_present_recreates_next_time() {
    let dev = Device::new();
    let mut s = dev.surface(size(4, 4), PresentMode::Swapchain);
    dev.acquire_results.borrow_mut().push(AcquireOutcome::Acquired { index: 0, suboptimal: false });
    dev.present_results.borrow_mut().push(PresentOutcome::OutOfDate);
    dev.render(&mut s).unwrap();
    s.resize_event(size(9, 9)).unwrap();
    dev.acquire_results.borrow_mut().push(AcquireOutcome::Acquired { index: 0, suboptimal: false });
    dev.present_results.borrow_mut().push(PresentOutcome::Presented);
    dev.render(&mut s).unwrap();
    assert_eq!(dev.allocations.borrow()[3..].to_vec(), vec![size(9, 9); 3]);
    assert_eq!(dev.last_drawn().1, info(9, 9));
}

#[test]
fn zero_sized_surface_renders_nothing() {
    let dev = Device::new();
    let mut s = dev.surface(size(0, 10), PresentMode::Offscreen);
    assert!(dev.allocations.borrow().is_empty());
    dev.render(&mut s).unwrap();
    assert!(dev.drawn.borrow().is_empty());
    assert_eq!(s.frame_index(), None);
    s.resize_event(size(5, 5)).unwrap();
    dev.render(&mut s).unwrap();
    assert_eq!(*dev.allocations.borrow(), vec![size(5, 5); 3]);
    assert_eq!(dev.last_drawn(), (1000, info(5, 5)));
    assert_eq!(s.current_vulkan_frame_index(), 1);
}

#[test]
fn resize_to_zero_drops_images_and_skips_drawing() {
    let dev = Device::new();
    let mut s = dev.surface(size(8, 8), PresentMode::Swapchain);
    s.resize_event(size(8, 0)).unwrap();
    dev.render(&mut s).unwrap();
    assert_eq!(dev.allocations.borrow().len(), 3);
    assert!(dev.drawn.borrow().is_empty());
    assert!(dev.presented.borrow().is_empty());
}

#[test]
fn recreate_request_reallocates_at_current_size() {
    let dev = Device::new();
    let mut s = dev.surface(size(12, 7), PresentMode::Swapchain);
    dev.acquire_results.borrow_mut().push(AcquireOutcome::OutOfDate);
    dev.render(&mut s).unwrap();
    dev.acquire_results.borrow_mut().push(AcquireOutcome::Acquired { index: 0, suboptimal: false });
    dev.present_results.borrow_mut().push(PresentOutcome::Presented);
    dev.render(&mut s).unwrap();
    assert_eq!(*dev.allocations.borrow(), vec![size(12, 7); 6]);
    assert_eq!(dev.last_drawn().0, 1003);
}
