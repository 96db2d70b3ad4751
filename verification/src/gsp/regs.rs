//! Registers of the GSP.
//!
//! Each of the ring pointers is an array indexed by queue, stride 8 bytes, and only queue 0 is used,
//! so each is declared as a scalar at the queue-0 offset.

use vstd::prelude::*;

use crate::bits::{field32, get_field32, lemma_mask64_values};

verus! {

/// Head of the CPU-to-GSP command ring: where the driver will write next. A write to this
/// register also rings the GSP's doorbell.
pub const NV_PGSP_QUEUE_HEAD: u32 = 0x0011_0c00;

/// Tail of the CPU-to-GSP command ring: where the GSP will read next.
pub const NV_PGSP_QUEUE_TAIL: u32 = 0x0011_0c04;

/// Head of the GSP-to-CPU message ring: where the GSP will write next.
pub const NV_PGSP_MSGQ_HEAD: u32 = 0x0011_0c80;

/// Tail of the GSP-to-CPU message ring: where the driver will read next.
pub const NV_PGSP_MSGQ_TAIL: u32 = 0x0011_0c84;

/// Index of the scratch register used as FRTS firmware error code.
pub const NV_PBUS_SW_SCRATCH_FRTS_ERR: usize = 0xe;

/// Returns the FRTS firmware error code, in bits 31:16 of the scratch register.
pub fn frts_err_code(raw: u32) -> (code: u16)
    ensures
        code == field32(raw, 16, 16),
{
    proof {
        lemma_mask64_values();
    }
    get_field32(raw, 16, 16) as u16
}

/// Where the ring pointers are: the tail of a ring comes after its head.
pub proof fn law_ring_pointer_offsets()
    ensures
        NV_PGSP_QUEUE_HEAD == 0x0011_0c00,
        NV_PGSP_QUEUE_TAIL == NV_PGSP_QUEUE_HEAD + 4,
        NV_PGSP_MSGQ_HEAD == 0x0011_0c80,
        NV_PGSP_MSGQ_TAIL == NV_PGSP_MSGQ_HEAD + 4,
        NV_PBUS_SW_SCRATCH_FRTS_ERR == 14,
{
}

} // verus!
