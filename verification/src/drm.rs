//! The DRM driver on top of the GPU driver.

pub mod file;
