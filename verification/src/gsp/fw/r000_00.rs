//! The firmware interface in its current release.

pub mod bindings;
