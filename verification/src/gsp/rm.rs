//! The RM interface of the GSP firmware.

pub mod commands;
