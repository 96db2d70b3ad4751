//! The framebuffer and how it is laid out for the GSP firmware.

pub mod hal;

use core::ops::Range;

use vstd::prelude::*;

verus! {

/// Layout of the GPU framebuffer memory.
///
/// Contains ranges of GPU memory reserved for a given purpose during the GSP boot process.
pub struct FbLayout {
    /// Range of the framebuffer.
    pub fb: Range<u64>,
    /// VGA workspace.
    pub vga_workspace: Range<u64>,
    /// FRTS range.
    pub frts: Range<u64>,
    /// Memory area containing the GSP bootloader image.
    pub boot: Range<u64>,
    /// Memory area containing the GSP firmware image.
    pub fw_image: Range<u64>,
    /// WPR2 heap.
    pub wpr2_heap: Range<u64>,
    /// WPR2 region range, starting with an instance of the metadata for the GSP bootloader.
    pub wpr2: Range<u64>,
    /// Non-WPR heap.
    pub heap: Range<u64>,
    /// Number of VF partitions.
    pub vf_partition_count: u8,
}

impl FbLayout {
    /// No range ends before it starts.
    pub open spec fn wf(self) -> bool {
        &&& self.fb.start <= self.fb.end
        &&& self.vga_workspace.start <= self.vga_workspace.end
        &&& self.frts.start <= self.frts.end
        &&& self.wpr2_heap.start <= self.wpr2_heap.end
        &&& self.heap.start <= self.heap.end
    }
}

} // verus!
