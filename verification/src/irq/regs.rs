//! Registers of the GIN CPU interrupt tree.

use vstd::prelude::*;

verus! {

/// A register and the value that is written to it.
#[derive(Clone, Copy, Debug, PartialEq, Eq, Structural)]
pub struct RegWrite {
    /// Offset of the register in BAR0.
    pub offset: u32,
    pub value: u32,
}

/// Latched state of the 32 vectors that belong to one leaf, one bit per vector. One of 16.
///
/// Vector `v` occupies bit `v % 32` of leaf `v / 32`. Each bit is write-1-to-clear, and a write of
/// `0` leaves its bit as it was.
pub const NV_VIRTUAL_FUNCTION_PRIV_CPU_INTR_LEAF: u32 = 0x00b8_1000;

/// Enables individual vectors within one leaf. One of 16.
pub const NV_VIRTUAL_FUNCTION_PRIV_CPU_INTR_LEAF_EN_SET: u32 = 0x00b8_1200;

/// Disables individual vectors within one leaf. One of 16.
///
/// The enable governs delivery alone: a disabled vector still latches.
pub const NV_VIRTUAL_FUNCTION_PRIV_CPU_INTR_LEAF_EN_CLEAR: u32 = 0x00b8_1400;

/// Enables whole subtrees at the top of the tree.
///
/// Bit `N` covers subtree `N`, which spans leaves `2N` and `2N + 1`.
pub const NV_VIRTUAL_FUNCTION_PRIV_CPU_INTR_TOP_EN_SET: u32 = 0x00b8_1608;

/// Disables whole subtrees at the top of the tree.
pub const NV_VIRTUAL_FUNCTION_PRIV_CPU_INTR_TOP_EN_CLEAR: u32 = 0x00b8_1610;

/// Latches a vector from software. The vector is in bits 11:0.
pub const NV_VIRTUAL_FUNCTION_PRIV_CPU_INTR_LEAF_TRIGGER: u32 = 0x00b8_1640;

/// MSI end-of-interrupt register. A write rearms MSI delivery on pre-Hopper GPUs. The value is
/// ignored.
pub const NV_XVE_CYA_2: u32 = 0x0008_8704;

/// Where the registers of the tree are. The registers of the sixteen leaves are four bytes apart.
pub proof fn law_register_offsets()
    ensures
        NV_VIRTUAL_FUNCTION_PRIV_CPU_INTR_LEAF == 0x00b8_1000,
        NV_VIRTUAL_FUNCTION_PRIV_CPU_INTR_LEAF_EN_SET == NV_VIRTUAL_FUNCTION_PRIV_CPU_INTR_LEAF
            + 0x200,
        NV_VIRTUAL_FUNCTION_PRIV_CPU_INTR_LEAF_EN_CLEAR == NV_VIRTUAL_FUNCTION_PRIV_CPU_INTR_LEAF
            + 0x400,
        NV_VIRTUAL_FUNCTION_PRIV_CPU_INTR_TOP_EN_SET == NV_VIRTUAL_FUNCTION_PRIV_CPU_INTR_LEAF
            + 0x608,
        NV_VIRTUAL_FUNCTION_PRIV_CPU_INTR_TOP_EN_CLEAR == NV_VIRTUAL_FUNCTION_PRIV_CPU_INTR_LEAF
            + 0x610,
        NV_VIRTUAL_FUNCTION_PRIV_CPU_INTR_LEAF_TRIGGER == NV_VIRTUAL_FUNCTION_PRIV_CPU_INTR_LEAF
            + 0x640,
        NV_XVE_CYA_2 == 0x0008_8704,
{
}

} // verus!
