//! A per-window render surface: device selection, a triple-buffered set of render-target
//! images, and the per-frame protocol (resize, acquire, draw, present), verified over a model
//! of its state. The device work itself is handed in by the caller as functions.

pub mod device;
pub mod error;
pub mod frames;
pub mod laws;
pub mod platform;
pub mod signal;
pub mod surface;
