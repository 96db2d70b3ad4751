//! Verified core logic of the Nova GPU driver.

pub mod bits;
pub mod bytes;
pub mod driver;
pub mod drm;
pub mod error;
pub mod falcon;
pub mod fb;
pub mod firmware;
pub mod fsp;
pub mod fwctl;
pub mod gpu;
pub mod gsp;
pub mod irq;
pub mod mctp;
pub mod mm;
pub mod num;
pub mod regs;
pub mod trace;
pub mod vgpu;
