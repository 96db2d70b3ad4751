//! TLB (Translation Lookaside Buffer) flush support for GPU MMU.
//!
//! After modifying page table entries, the GPU's TLB must be flushed to ensure the new mappings take
//! effect.

use vstd::prelude::*;

use crate::bits::{bit32, with_field32};
use crate::mm::addr::VramAddress;
use crate::regs::{tlb_flush_pdb_hi, tlb_flush_pdb_lo, TlbAckMode, NV_TLB_FLUSH_CTRL};

verus! {

/// The register values that flush the TLB, in the order in which they are written.
#[derive(Debug, Clone, Copy, PartialEq, Eq, Structural)]
pub struct TlbFlush {
    pub pdb_lo: u32,
    pub pdb_hi: u8,
    pub ctrl: NV_TLB_FLUSH_CTRL,
}

impl TlbFlush {
    /// Returns the flush of a specific page directory base.
    ///
    /// It invalidates all TLB entries associated with the given PDB address. The flush is over when
    /// [`TlbFlush::completed`] holds of the control register.
    pub fn new(pdb_addr: VramAddress) -> (flush: Self)
        ensures
            flush.pdb_lo == (pdb_addr.raw as int / 0x100) % 0x1_0000_0000,
            flush.pdb_hi == (pdb_addr.raw as int / 0x100_0000_0000) % 0x100,
            flush.ctrl.raw == with_field32(
                with_field32(with_field32(0, 0, 1, 1), 7, 2, 0),
                31,
                1,
                1,
            ),
    {
        TlbFlush {
            pdb_lo: tlb_flush_pdb_lo(pdb_addr.raw()),
            pdb_hi: tlb_flush_pdb_hi(pdb_addr.raw()),
            ctrl: NV_TLB_FLUSH_CTRL::flush_all(TlbAckMode::NotNeeded),
        }
    }

    /// Returns whether the flush that the control register shows is over.
    pub fn completed(ctrl: NV_TLB_FLUSH_CTRL) -> (completed: bool)
        ensures
            completed == !bit32(ctrl.raw, 31),
    {
        !ctrl.trigger()
    }
}

} // verus!
