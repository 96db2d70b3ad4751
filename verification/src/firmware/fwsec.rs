//! The FWSEC firmware, which runs in the GSP falcon before the GSP firmware is booted.

pub mod bootloader;
