//! Chipset-specific access to the framebuffer.

use vstd::prelude::*;

use crate::error::Error;
use crate::gpu::{Architecture, Chipset};

verus! {

/// The chipset-specific access to the framebuffer.
#[derive(Clone, Copy, Debug, PartialEq, Eq, Structural)]
pub enum FbHal {
    /// Turing.
    Tu102,
    /// GA100.
    Ga100,
    /// GA102 and later, and Ada.
    Ga102,
    /// Hopper.
    Gh100,
    /// Blackwell GB10x. These GPUs use HSHUB0 registers for the sysmem flush page. Both the primary
    /// and EG (egress) register pairs must be programmed to the same address, as required by
    /// hardware.
    Gb100,
    /// Blackwell GB20x. These GPUs moved the sysmem flush registers to FBHUB0.
    Gb202,
}

/// Returns the HAL corresponding to `chipset`.
pub fn fb_hal(chipset: Chipset) -> (hal: FbHal)
    ensures
        hal == match chipset.arch() {
            Architecture::Turing => FbHal::Tu102,
            Architecture::Ampere => if chipset == Chipset::GA100 {
                FbHal::Ga100
            } else {
                FbHal::Ga102
            },
            Architecture::Ada => FbHal::Ga102,
            Architecture::Hopper => FbHal::Gh100,
            Architecture::BlackwellGB10x => FbHal::Gb100,
            Architecture::BlackwellGB20x => FbHal::Gb202,
        },
{
    match chipset.arch() {
        Architecture::Turing => FbHal::Tu102,
        Architecture::Ampere => {
            if chipset == Chipset::GA100 {
                FbHal::Ga100
            } else {
                FbHal::Ga102
            }
        },
        Architecture::Ada => FbHal::Ga102,
        Architecture::Hopper => FbHal::Gh100,
        Architecture::BlackwellGB10x => FbHal::Gb100,
        Architecture::BlackwellGB20x => FbHal::Gb202,
    }
}

/// A register that takes half of the address of the sysmem flush page.
#[derive(Clone, Copy, Debug, PartialEq, Eq, Structural)]
pub enum FlushRegister {
    /// `NV_PFB_HSHUB_PCIE_FLUSH_SYSMEM_ADDR_HI`.
    HshubHi,
    /// `NV_PFB_HSHUB_PCIE_FLUSH_SYSMEM_ADDR_LO`.
    HshubLo,
    /// `NV_PFB_HSHUB_EG_PCIE_FLUSH_SYSMEM_ADDR_HI`.
    HshubEgHi,
    /// `NV_PFB_HSHUB_EG_PCIE_FLUSH_SYSMEM_ADDR_LO`.
    HshubEgLo,
    /// `NV_PFB_FBHUB0_PCIE_FLUSH_SYSMEM_ADDR_HI`.
    Fbhub0Hi,
    /// `NV_PFB_FBHUB0_PCIE_FLUSH_SYSMEM_ADDR_LO`.
    Fbhub0Lo,
}

/// The lower half of an address.
pub open spec fn address_lo(addr: u64) -> u32 {
    (addr % 0x1_0000_0000) as u32
}

/// The upper half of an address.
pub open spec fn address_hi(addr: u64) -> u32 {
    (addr / 0x1_0000_0000) as u32
}

/// Returns the address of the sysmem flush page, from what its two registers read as. The upper one
/// holds 20 bits.
pub fn read_sysmem_flush_page(lo: u32, hi: u32) -> (addr: u64)
    ensures
        addr == lo + (hi % 0x10_0000) * 0x1_0000_0000,
{
    lo as u64 + (hi % 0x10_0000) as u64 * 0x1_0000_0000
}

/// Returns the register writes, in order, that register `addr` as the address of the sysmem flush
/// page on GB10x. Fails if the address does not fit in 52 bits.
///
/// The upper half is written first, as the hardware will trigger the flush on the write of the lower
/// half. The egress pair must match the primary pair.
pub fn write_sysmem_flush_page_gb100(addr: u64) -> (writes: Result<
    Vec<(FlushRegister, u32)>,
    Error,
>)
    ensures
        match writes {
            Ok(writes) => {
                &&& addr < 0x10_0000_0000_0000
                &&& writes@ == seq![
                    (FlushRegister::HshubHi, address_hi(addr)),
                    (FlushRegister::HshubLo, address_lo(addr)),
                    (FlushRegister::HshubEgHi, address_hi(addr)),
                    (FlushRegister::HshubEgLo, address_lo(addr)),
                ]
            },
            Err(error) => addr >= 0x10_0000_0000_0000 && error == Error::EINVAL,
        },
{
    if addr >= 0x10_0000_0000_0000 {
        return Err(Error::EINVAL);
    }
    let addr_lo: u32 = (addr % 0x1_0000_0000) as u32;
    let addr_hi: u32 = (addr / 0x1_0000_0000) as u32;
    let writes = vec![
        (FlushRegister::HshubHi, addr_hi),
        (FlushRegister::HshubLo, addr_lo),
        (FlushRegister::HshubEgHi, addr_hi),
        (FlushRegister::HshubEgLo, addr_lo),
    ];
    Ok(writes)
}

/// Returns the register writes, in order, that register `addr` as the address of the sysmem flush
/// page on GB20x. Fails if the address does not fit in 52 bits.
///
/// The upper half is written first, as the hardware will trigger the flush on the write of the lower
/// half.
pub fn write_sysmem_flush_page_gb202(addr: u64) -> (writes: Result<
    Vec<(FlushRegister, u32)>,
    Error,
>)
    ensures
        match writes {
            Ok(writes) => {
                &&& addr < 0x10_0000_0000_0000
                &&& writes@ == seq![
                    (FlushRegister::Fbhub0Hi, address_hi(addr)),
                    (FlushRegister::Fbhub0Lo, address_lo(addr)),
                ]
            },
            Err(error) => addr >= 0x10_0000_0000_0000 && error == Error::EINVAL,
        },
{
    if addr >= 0x10_0000_0000_0000 {
        return Err(Error::EINVAL);
    }
    let addr_lo: u32 = (addr % 0x1_0000_0000) as u32;
    let addr_hi: u32 = (addr / 0x1_0000_0000) as u32;
    let writes = vec![(FlushRegister::Fbhub0Hi, addr_hi), (FlushRegister::Fbhub0Lo, addr_lo)];
    Ok(writes)
}

/// The registers give back the address that was written to them.
pub proof fn law_flush_page_read_of_write(addr: u64)
    requires
        addr < 0x10_0000_0000_0000,
    ensures
        address_lo(addr) + (address_hi(addr) % 0x10_0000) * 0x1_0000_0000 == addr,
{
}

/// The halves of an address make up the address.
pub proof fn law_address_halves(addr: u64)
    ensures
        address_hi(addr) * 0x1_0000_0000 + address_lo(addr) == addr,
{
}

} // verus!
