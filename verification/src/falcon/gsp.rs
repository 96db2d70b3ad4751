//! The GSP falcon.

#![allow(non_camel_case_types)]

use vstd::prelude::*;

use crate::bits::{bit32, get_bit32, set_bit32, with_field32};
use crate::falcon::hal::{falcon_intr_hal, intr_hal_of, FalconIntrHal};
use crate::gpu::Chipset;
use crate::irq::regs::RegWrite;

verus! {

/// The interrupt causes of the falcon: SWGEN0 in bit 6.
#[derive(Clone, Copy, Debug, PartialEq, Eq, Structural)]
pub struct NV_PFALCON_FALCON_IRQSTAT {
    pub raw: u32,
}

impl NV_PFALCON_FALCON_IRQSTAT {
    /// Returns whether SWGEN0 is set, the message-queue notification.
    pub fn swgen0(self) -> (set: bool)
        ensures
            set == bit32(self.raw, 6),
    {
        get_bit32(self.raw, 6)
    }

    /// The causes without SWGEN0.
    pub open spec fn spec_faults(self) -> NV_PFALCON_FALCON_IRQSTAT {
        NV_PFALCON_FALCON_IRQSTAT { raw: with_field32(self.raw, 6, 1, 0) }
    }

    /// Returns the causes without SWGEN0. Where they are pending for the host they are faults.
    pub fn faults(self) -> (faults: Self)
        ensures
            faults == self.spec_faults(),
    {
        NV_PFALCON_FALCON_IRQSTAT { raw: set_bit32(self.raw, 6, false) }
    }
}

/// Register of the GSP falcon that clears the latches of the causes set in the value written.
pub const NV_PGSP_FALCON_IRQSCLR: u32 = 0x0011_0004;

/// The write that clears the SWGEN0 latch, and no other.
pub open spec fn swgen0_clear() -> RegWrite {
    RegWrite { offset: NV_PGSP_FALCON_IRQSCLR, value: with_field32(0, 6, 1, 1) }
}

/// Returns the write that clears the SWGEN0 latch of the GSP falcon.
///
/// The GSP signals the interrupt tree no further while the latch stays set, so a caller that consumed
/// a notification without the interrupt handler must clear it.
pub fn clear_swgen0_intr() -> (write: RegWrite)
    ensures
        write == swgen0_clear(),
{
    RegWrite { offset: NV_PGSP_FALCON_IRQSCLR, value: set_bit32(0, 6, true) }
}

/// Returns the value that clears the SWGEN0 latch, if `status`, the causes pending for the host, has
/// it set. No other latch is changed.
pub fn take_host_intr(status: NV_PFALCON_FALCON_IRQSTAT) -> (clear: Option<u32>)
    ensures
        clear == if bit32(status.raw, 6) {
            Some(with_field32(0, 6, 1, 1))
        } else {
            None::<u32>
        },
{
    if status.swgen0() {
        Some(set_bit32(0, 6, true))
    } else {
        None
    }
}

/// Returns whether the falcon's host-routed interrupt causes are re-emitted into the interrupt tree
/// by a write, which Turing's falcons do not implement.
pub fn retrigger_intr(chipset: Chipset) -> (write: bool)
    ensures
        write == (intr_hal_of(chipset) != FalconIntrHal::Tu102),
{
    falcon_intr_hal(chipset).has_intr_retrigger()
}

/// Returns whether GSP reload/resume has completed, by `NV_PGC6_BSI_SECURE_SCRATCH_14`.
pub fn reload_completed(scratch: u32) -> (completed: bool)
    ensures
        completed == bit32(scratch, 26),
{
    get_bit32(scratch, 26)
}

/// Returns whether GSP registers can be read by the CPU, by what `HWCFG2` reads as.
///
/// While the PRIV target mask still blocks CPU access, reads give a pattern whose low byte varies
/// and whose upper 24 bits are fixed.
pub fn priv_target_mask_released(hwcfg2: u32) -> (released: bool)
    ensures
        released == (hwcfg2 != 0 && hwcfg2 / 0x100 != 0xba_df41),
{
    hwcfg2 != 0 && hwcfg2 / 0x100 != 0xba_df41
}

/// The causes without SWGEN0 are those of the number without its bit 6, and the SWGEN0 latch is cleared
/// by writing that bit alone.
pub proof fn law_swgen0_bit(status: NV_PFALCON_FALCON_IRQSTAT)
    ensures
        status.spec_faults().raw == status.raw - (status.raw / 64 % 2) * 64,
        swgen0_clear().offset == 0x0011_0004,
        swgen0_clear().value == 64,
{
    lemma_swgen0_bit(status.raw);
}

/// The number of a word without its bit 6.
proof fn lemma_swgen0_bit(raw: u32)
    by (bit_vector)
    ensures
        with_field32(raw, 6, 1, 0) == raw - (raw / 64 % 2) * 64,
        with_field32(0, 6, 1, 1) == 64,
{
}

} // verus!
