//! Falcon microprocessors.

pub mod fsp;
pub mod gsp;
pub mod hal;

use vstd::prelude::*;

verus! {

/// Alignment (in bytes) of falcon memory blocks.
pub const MEM_BLOCK_ALIGNMENT: usize = 256;

} // verus!
