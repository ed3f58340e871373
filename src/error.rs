use vstd::prelude::*;

verus! {

/// What went wrong while creating a surface or rendering a frame, with a message for humans.
#[derive(Debug, Clone)]
pub enum SurfaceError {
    DeviceEnumerationFailed(String),
    NoSuitableDevice,
    DeviceCreationFailed(String),
    NoQueueAvailable,
    GraphicsContextCreationFailed,
    ImageAllocationFailed(String),
    ImageViewCreationFailed(String),
    SurfaceCreationFailed(String),
    AcquireFailed(String),
    PresentFailed(String),
    DrawableSurfaceCreationFailed,
}

} // verus!
