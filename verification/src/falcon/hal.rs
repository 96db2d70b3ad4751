//! Properties of falcons that differ by GPU family.

use vstd::prelude::*;

use crate::gpu::{Architecture, Chipset};

verus! {

/// Method used to load data into falcon memory. Some GPU architectures need PIO and others can use
/// DMA.
#[derive(Clone, Copy, Debug, PartialEq, Eq, Structural)]
pub enum LoadMethod {
    /// Programmed I/O
    Pio,
    /// Direct Memory Access
    Dma,
}

/// The chipset-specific low-level operations of a falcon core.
#[derive(Clone, Copy, Debug, PartialEq, Eq, Structural)]
pub enum FalconHal {
    /// Turing. GA100 boots like Turing.
    Tu102,
    /// GA102 and later.
    Ga102,
}

impl FalconHal {
    /// Returns the method used to load data into the falcon's memory.
    ///
    /// The only chipsets supporting PIO are those < GA102, and PIO is the preferred method for these.
    /// For anything above, the PIO registers appear to be masked to the CPU, so DMA is the only
    /// usable method.
    pub fn load_method(self) -> (method: LoadMethod)
        ensures
            method == match self {
                FalconHal::Tu102 => LoadMethod::Pio,
                FalconHal::Ga102 => LoadMethod::Dma,
            },
    {
        match self {
            FalconHal::Tu102 => LoadMethod::Pio,
            FalconHal::Ga102 => LoadMethod::Dma,
        }
    }
}

/// Whether a chipset has the falcons of Turing.
pub open spec fn boots_like_turing(chipset: Chipset) -> bool {
    chipset.arch() == Architecture::Turing || chipset == Chipset::GA100
}

/// Returns the falcon HAL adequate for `chipset`.
pub fn falcon_hal(chipset: Chipset) -> (hal: FalconHal)
    ensures
        hal == if boots_like_turing(chipset) {
            FalconHal::Tu102
        } else {
            FalconHal::Ga102
        },
{
    match chipset.arch() {
        Architecture::Turing => FalconHal::Tu102,
        Architecture::Ampere => {
            if chipset == Chipset::GA100 {
                FalconHal::Tu102
            } else {
                FalconHal::Ga102
            }
        },
        _ => FalconHal::Ga102,
    }
}

/// Offsets at which a falcon carries the RISC-V interrupt routing registers.
#[derive(Clone, Copy, Debug, PartialEq, Eq, Structural)]
pub enum RiscvRouting {
    /// The Turing offsets, which GA100 also uses.
    Tu102,
    /// The GA102 offsets, used by GA102 and later.
    Ga102,
}

/// Returns the causes in `latched` that the RISC-V core routes to the host.
///
/// A cause reaches the host only if the core both enables it, in `mask`, and directs it there, in
/// `dest`. Every other latched cause belongs to the firmware running on the core.
pub fn host_routed_causes(latched: u32, mask: u32, dest: u32) -> (causes: u32)
    ensures
        causes == latched & mask & dest,
{
    latched & mask & dest
}

/// Interrupt properties of a RISC-V falcon, which differ by GPU family.
#[derive(Clone, Copy, Debug, PartialEq, Eq, Structural)]
pub enum FalconIntrHal {
    Tu102,
    /// GA100 reaches the RISC-V routing registers at the Turing offsets, which GA102 moved, but its
    /// falcons implement the retrigger register, which Turing's do not.
    Ga100,
    Ga102,
}

impl FalconIntrHal {
    /// Returns whether these falcons implement `NV_PFALCON_FALCON_INTR_RETRIGGER`.
    pub fn has_intr_retrigger(&self) -> (result: bool)
        ensures
            result == (*self != FalconIntrHal::Tu102),
    {
        *self != FalconIntrHal::Tu102
    }

    /// Returns the offsets at which these falcons carry the RISC-V routing registers.
    pub fn riscv_routing(&self) -> (routing: RiscvRouting)
        ensures
            routing == if *self == FalconIntrHal::Ga102 {
                RiscvRouting::Ga102
            } else {
                RiscvRouting::Tu102
            },
    {
        match self {
            FalconIntrHal::Ga102 => RiscvRouting::Ga102,
            _ => RiscvRouting::Tu102,
        }
    }
}

/// The [`FalconIntrHal`] of a chipset.
pub open spec fn intr_hal_of(chipset: Chipset) -> FalconIntrHal {
    if chipset.arch() == Architecture::Turing {
        FalconIntrHal::Tu102
    } else if chipset == Chipset::GA100 {
        FalconIntrHal::Ga100
    } else {
        FalconIntrHal::Ga102
    }
}

/// Returns the [`FalconIntrHal`] for `chipset`.
pub fn falcon_intr_hal(chipset: Chipset) -> (hal: FalconIntrHal)
    ensures
        hal == intr_hal_of(chipset),
{
    match chipset.arch() {
        Architecture::Turing => FalconIntrHal::Tu102,
        Architecture::Ampere => {
            if chipset == Chipset::GA100 {
                FalconIntrHal::Ga100
            } else {
                FalconIntrHal::Ga102
            }
        },
        _ => FalconIntrHal::Ga102,
    }
}

/// The chipsets up to GA100 have the falcons of Turing. Those falcons signal interrupts as Turing does,
/// but GA100 has a kind of its own.
pub proof fn law_falcon_families(chipset: Chipset)
    ensures
        boots_like_turing(chipset) <==> chipset.code() <= 0x170,
        intr_hal_of(chipset) == FalconIntrHal::Tu102 <==> chipset.code() < 0x170,
        intr_hal_of(chipset) == FalconIntrHal::Ga100 <==> chipset.code() == 0x170,
        intr_hal_of(chipset) == FalconIntrHal::Ga102 <==> chipset.code() > 0x170,
{
}

} // verus!
