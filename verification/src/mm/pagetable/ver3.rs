//! MMU v3 page table types for Hopper and later GPUs.
//!
//! Key differences from MMU v2:
//! - Unified 40-bit address field for all apertures (v2 had separate sys/vid fields).
//! - PCF (Page Classification Field) replaces separate privilege/RO/atomic/cache bits.
//! - KIND field is 4 bits (not 8).
//! - IS_PTE bit in PDE to support large pages directly.

use vstd::prelude::*;

use crate::bits::{field64, get_field64, lemma_mask64_values, set_field64, with_field64};
use crate::error::Error;
use crate::mm::addr::{Pfn, VramAddress};
use crate::mm::pagetable::{AperturePde, AperturePte};

verus! {

/// Page Classification Field for PTEs: uncached in bit 0, access counting disabled in bit 1,
/// read-only in bit 2, atomics disabled in bit 3 and privileged in bit 4.
#[derive(Debug, Clone, Copy, PartialEq, Eq, Structural)]
pub struct PtePcf {
    pub raw: u8,
}

impl PtePcf {
    /// Create PCF for read-write mapping (cached, no atomics, regular mode).
    pub fn rw() -> (pcf: Self)
        ensures
            pcf.raw == 0x8,
    {
        PtePcf { raw: 0x8 }
    }

    /// Create PCF for read-only mapping (cached, no atomics, regular mode).
    pub fn ro() -> (pcf: Self)
        ensures
            pcf.raw == 0xc,
    {
        PtePcf { raw: 0xc }
    }

    /// Get the raw `u8` value.
    pub fn raw_u8(&self) -> (raw: u8)
        ensures
            raw == self.raw,
    {
        self.raw
    }
}

/// Page Classification Field for PDEs: uncached in bit 0 and Address Translation Services disabled
/// in bit 1.
#[derive(Debug, Clone, Copy, PartialEq, Eq, Structural)]
pub struct PdePcf {
    pub raw: u8,
}

impl PdePcf {
    /// Create PCF for cached mapping with ATS enabled (default).
    pub fn cached() -> (pcf: Self)
        ensures
            pcf.raw == 0,
    {
        PdePcf { raw: 0 }
    }

    /// Get the raw `u8` value.
    pub fn raw_u8(&self) -> (raw: u8)
        ensures
            raw == self.raw,
    {
        self.raw
    }
}

/// Page Table Entry for MMU v3: valid in bit 0, the aperture in bits 2:1, the PCF in bits 7:3, the
/// kind in bits 11:8, the frame number in bits 51:12 and the peer in bits 63:61.
#[derive(Debug, Clone, Copy, PartialEq, Eq, Structural)]
pub struct Pte {
    pub raw: u64,
}

/// The PTE of a page in video memory.
pub open spec fn pte_vram(pfn: u64, writable: bool) -> u64 {
    with_field64(
        with_field64(
            with_field64(with_field64(0, 0, 1, 1), 1, 2, 0),
            3,
            5,
            if writable {
                0x8
            } else {
                0xc
            },
        ),
        12,
        40,
        pfn,
    )
}

impl Pte {
    /// The frame number.
    pub open spec fn spec_frame_number(self) -> Pfn {
        Pfn(field64(self.raw, 12, 40))
    }

    /// Create a PTE from a `u64` value.
    pub fn new(val: u64) -> (pte: Self)
        ensures
            pte.raw == val,
    {
        Pte { raw: val }
    }

    /// Create a valid PTE for video memory.
    pub fn new_vram(frame: Pfn, writable: bool) -> (pte: Self)
        ensures
            pte.raw == pte_vram(frame.0, writable),
    {
        let pcf = if writable {
            PtePcf::rw()
        } else {
            PtePcf::ro()
        };
        let raw: u64 = set_field64(set_field64(0, 0, 1, 1), 1, 2, 0);
        let raw: u64 = set_field64(raw, 3, 5, pcf.raw as u64);
        Pte { raw: set_field64(raw, 12, 40, frame.0) }
    }

    /// Create an invalid PTE.
    pub fn invalid() -> (pte: Self)
        ensures
            pte.raw == 0,
    {
        Pte { raw: 0 }
    }

    /// Check if this PTE is valid.
    pub fn is_valid(&self) -> (valid: bool)
        ensures
            valid == (field64(self.raw, 0, 1) == 1),
    {
        get_field64(self.raw, 0, 1) == 1
    }

    /// Returns the memory aperture.
    pub fn aperture(&self) -> (aperture: AperturePte)
        ensures
            aperture == AperturePte::of_code(field64(self.raw, 1, 2)),
    {
        AperturePte::from_bits(get_field64(self.raw, 1, 2))
    }

    /// Get the frame number.
    pub fn frame_number(&self) -> (pfn: Pfn)
        ensures
            pfn == self.spec_frame_number(),
    {
        Pfn(get_field64(self.raw, 12, 40))
    }

    /// Get the raw `u64` value.
    pub fn raw_u64(&self) -> (raw: u64)
        ensures
            raw == self.raw,
    {
        self.raw
    }
}

/// The fields of the PTE of a page in video memory.
proof fn lemma_pte_vram(pfn: u64, writable: bool)
    by (bit_vector)
    ensures
        field64(pte_vram(pfn, writable), 0, 1) == 1,
        field64(pte_vram(pfn, writable), 1, 2) == 0,
        field64(pte_vram(pfn, writable), 5, 1) == if writable {
            0u64
        } else {
            1
        },
        pfn < 0x100_0000_0000 ==> field64(pte_vram(pfn, writable), 12, 40) == pfn,
        field64(0, 0, 1) == 0,
        field64(0, 1, 2) == 0,
{
}

/// A PTE made for a page in video memory is valid, points to that page and is read-only, which is
/// bit 5, where it is not writable. The invalid PTE is not valid.
pub proof fn law_pte_of_vram_page(pfn: Pfn, writable: bool)
    requires
        pfn.0 < 0x100_0000_0000,
    ensures
        ({
            let pte = Pte { raw: pte_vram(pfn.0, writable) };
            &&& field64(pte.raw, 0, 1) == 1
            &&& AperturePte::of_code(field64(pte.raw, 1, 2)) == AperturePte::VideoMemory
            &&& pte.spec_frame_number() == pfn
            &&& field64(pte.raw, 5, 1) == 0 <==> writable
        }),
        field64(0, 0, 1) == 0,
{
    lemma_pte_vram(pfn.0, writable);
}

/// Page Directory Entry for MMU v3 (Hopper+): whether it is a PTE in bit 0, the aperture in bits
/// 2:1, the PCF in bits 5:3 and the frame number of the table in bits 51:12.
#[derive(Debug, Clone, Copy, PartialEq, Eq, Structural)]
pub struct Pde {
    pub raw: u64,
}

/// The PDE of a table in video memory.
pub open spec fn pde_vram(pfn: u64) -> u64 {
    with_field64(with_field64(with_field64(0, 0, 1, 0), 1, 2, 1), 12, 40, pfn)
}

/// The PDE that points to no table.
pub open spec fn pde_invalid() -> u64 {
    with_field64(0, 1, 2, 0)
}

impl Pde {
    /// The aperture.
    pub open spec fn spec_aperture(self) -> AperturePde {
        AperturePde::of_code(field64(self.raw, 1, 2))
    }

    /// Whether the entry points to a table.
    pub open spec fn spec_valid(self) -> bool {
        self.spec_aperture() != AperturePde::Invalid
    }

    /// The address of a table in video memory.
    pub open spec fn spec_table_vram_address(self) -> VramAddress {
        VramAddress { raw: (field64(self.raw, 12, 40) * 4096) as u64 }
    }

    /// Create a PDE from a `u64` value.
    pub fn new(val: u64) -> (pde: Self)
        ensures
            pde.raw == val,
    {
        Pde { raw: val }
    }

    /// Create a valid PDE pointing to a page table in video memory.
    pub fn new_vram(table_pfn: Pfn) -> (pde: Self)
        ensures
            pde.raw == pde_vram(table_pfn.0),
    {
        let raw: u64 = set_field64(set_field64(0, 0, 1, 0), 1, 2, 1);
        Pde { raw: set_field64(raw, 12, 40, table_pfn.0) }
    }

    /// Create an invalid PDE.
    pub fn invalid() -> (pde: Self)
        ensures
            pde.raw == pde_invalid(),
    {
        Pde { raw: set_field64(0, 1, 2, 0) }
    }

    /// Check if this PDE is valid.
    pub fn is_valid(&self) -> (valid: bool)
        ensures
            valid == self.spec_valid(),
    {
        self.aperture() != AperturePde::Invalid
    }

    /// Get the memory aperture of this PDE.
    pub fn aperture(&self) -> (aperture: AperturePde)
        ensures
            aperture == self.spec_aperture(),
    {
        AperturePde::from_bits(get_field64(self.raw, 1, 2))
    }

    /// Check if this PDE is valid and points to video memory.
    pub fn is_valid_vram(&self) -> (valid: bool)
        ensures
            valid == (self.spec_aperture() == AperturePde::VideoMemory),
    {
        self.is_valid() && self.aperture() == AperturePde::VideoMemory
    }

    /// Get the VRAM address of the page table, which has to be in video memory.
    pub fn table_vram_address(&self) -> (address: VramAddress)
        ensures
            address == self.spec_table_vram_address(),
            address.raw < 0x10_0000_0000_0000,
    {
        proof {
            lemma_mask64_values();
        }
        VramAddress { raw: get_field64(self.raw, 12, 40) * 4096 }
    }

    /// Get the raw `u64` value.
    pub fn raw_u64(&self) -> (raw: u64)
        ensures
            raw == self.raw,
    {
        self.raw
    }
}

/// The fields of the PDEs that are made.
proof fn lemma_pde_vram(pfn: u64)
    by (bit_vector)
    ensures
        field64(pde_vram(pfn), 0, 1) == 0,
        field64(pde_vram(pfn), 1, 2) == 1,
        pfn < 0x100_0000_0000 ==> field64(pde_vram(pfn), 12, 40) == pfn,
        field64(pde_invalid(), 1, 2) == 0,
{
}

/// A PDE made for a table in video memory is valid and points to that table. The invalid PDE is not
/// valid.
pub proof fn law_pde_of_vram_table(pfn: Pfn)
    requires
        pfn.0 < 0x100_0000_0000,
    ensures
        ({
            let pde = Pde { raw: pde_vram(pfn.0) };
            &&& pde.spec_valid()
            &&& pde.spec_aperture() == AperturePde::VideoMemory
            &&& pde.spec_table_vram_address().raw == pfn.0 * 4096
        }),
        !(Pde { raw: pde_invalid() }).spec_valid(),
{
    lemma_pde_vram(pfn.0);
}

/// Big Page Table pointer in Dual PDE (MMU v3): whether it is a PTE in bit 0, the aperture in bits
/// 2:1, the PCF in bits 5:3 and the table address without its lowest eight bits in bits 51:8.
#[derive(Debug, Clone, Copy, PartialEq, Eq, Structural)]
pub struct DualPdeBig {
    pub raw: u64,
}

/// The big page table pointer of a table in video memory.
pub open spec fn big_vram(frame: u64) -> u64 {
    with_field64(with_field64(with_field64(0, 0, 1, 0), 1, 2, 1), 8, 44, frame)
}

impl DualPdeBig {
    /// The aperture.
    pub open spec fn spec_aperture(self) -> AperturePde {
        AperturePde::of_code(field64(self.raw, 1, 2))
    }

    /// Whether the entry points to a table.
    pub open spec fn spec_valid(self) -> bool {
        self.spec_aperture() != AperturePde::Invalid
    }

    /// The address of a table in video memory.
    pub open spec fn spec_table_vram_address(self) -> VramAddress {
        VramAddress { raw: (field64(self.raw, 8, 44) * 256) as u64 }
    }

    /// Create a big page table pointer from a `u64` value.
    pub fn new(val: u64) -> (pde: Self)
        ensures
            pde.raw == val,
    {
        DualPdeBig { raw: val }
    }

    /// Create an invalid big page table pointer.
    pub fn invalid() -> (pde: Self)
        ensures
            pde.raw == pde_invalid(),
    {
        DualPdeBig { raw: set_field64(0, 1, 2, 0) }
    }

    /// Create a valid big PDE pointing to a page table in video memory. The table has to be aligned
    /// to 256 bytes.
    pub fn new_vram(table_addr: VramAddress) -> (pde: Result<Self, Error>)
        ensures
            match pde {
                Ok(pde) => table_addr.raw % 256 == 0 && pde.raw == big_vram(
                    (table_addr.raw / 256) as u64,
                ),
                Err(error) => table_addr.raw % 256 != 0 && error == Error::EINVAL,
            },
    {
        if table_addr.raw % 256 != 0 {
            return Err(Error::EINVAL);
        }
        let raw: u64 = set_field64(set_field64(0, 0, 1, 0), 1, 2, 1);
        Ok(DualPdeBig { raw: set_field64(raw, 8, 44, table_addr.raw / 256) })
    }

    /// Check if this big PDE is valid.
    pub fn is_valid(&self) -> (valid: bool)
        ensures
            valid == self.spec_valid(),
    {
        self.aperture() != AperturePde::Invalid
    }

    /// Get the memory aperture.
    pub fn aperture(&self) -> (aperture: AperturePde)
        ensures
            aperture == self.spec_aperture(),
    {
        AperturePde::from_bits(get_field64(self.raw, 1, 2))
    }

    /// Get the VRAM address of the big page table, which has to be in video memory.
    pub fn table_vram_address(&self) -> (address: VramAddress)
        ensures
            address == self.spec_table_vram_address(),
    {
        proof {
            lemma_mask64_values();
        }
        VramAddress { raw: get_field64(self.raw, 8, 44) * 256 }
    }

    /// Get the raw `u64` value.
    pub fn raw_u64(&self) -> (raw: u64)
        ensures
            raw == self.raw,
    {
        self.raw
    }
}

/// The fields of the big page table pointer of a table in video memory.
proof fn lemma_big_vram(frame: u64)
    by (bit_vector)
    ensures
        field64(big_vram(frame), 0, 1) == 0,
        field64(big_vram(frame), 1, 2) == 1,
        frame < 0x1000_0000_0000 ==> field64(big_vram(frame), 8, 44) == frame,
        field64(pde_invalid(), 1, 2) == 0,
{
}

/// A big page table pointer made for a table in video memory is valid and points to that table.
pub proof fn law_big_pde_of_vram_table(table_addr: VramAddress)
    requires
        table_addr.raw % 256 == 0,
        table_addr.raw < 0x10_0000_0000_0000,
    ensures
        ({
            let pde = DualPdeBig { raw: big_vram((table_addr.raw / 256) as u64) };
            &&& pde.spec_valid()
            &&& pde.spec_table_vram_address() == table_addr
        }),
{
    lemma_big_vram((table_addr.raw / 256) as u64);
}

/// Dual PDE at Level 4 for MMU v3 - 128-bit entry.
///
/// Contains both big (64KB) and small (4KB) page table pointers:
/// - Lower 64 bits: Big Page Table pointer.
/// - Upper 64 bits: Small Page Table pointer.
///
/// The two have different address layouts, 256-byte aligned and 4KB aligned, which is why
/// `DualPdeBig` is a separate type from `Pde`.
#[derive(Debug, Clone, Copy, PartialEq, Eq, Structural)]
pub struct DualPde {
    /// Big Page Table pointer.
    pub big: DualPdeBig,
    /// Small Page Table pointer.
    pub small: Pde,
}

impl DualPde {
    /// Create a dual PDE from raw 128-bit value (two `u64`s).
    pub fn new(big: u64, small: u64) -> (pde: Self)
        ensures
            pde.big.raw == big,
            pde.small.raw == small,
    {
        DualPde { big: DualPdeBig { raw: big }, small: Pde { raw: small } }
    }

    /// Create a dual PDE with only the small page table pointer set.
    pub fn new_small(table_pfn: Pfn) -> (pde: Self)
        ensures
            pde.big.raw == pde_invalid(),
            pde.small.raw == pde_vram(table_pfn.0),
    {
        DualPde { big: DualPdeBig::invalid(), small: Pde::new_vram(table_pfn) }
    }

    /// Check if the small page table pointer is valid.
    pub fn has_small(&self) -> (valid: bool)
        ensures
            valid == self.small.spec_valid(),
    {
        self.small.is_valid()
    }

    /// Check if the big page table pointer is valid.
    pub fn has_big(&self) -> (valid: bool)
        ensures
            valid == self.big.spec_valid(),
    {
        self.big.is_valid()
    }
}

/// A dual PDE made for a small page table has a small table, and no big one.
pub proof fn law_dual_pde_small_only(pfn: Pfn)
    requires
        pfn.0 < 0x100_0000_0000,
    ensures
        ({
            let pde = DualPde {
                big: DualPdeBig { raw: pde_invalid() },
                small: Pde { raw: pde_vram(pfn.0) },
            };
            &&& pde.small.spec_valid()
            &&& !pde.big.spec_valid()
            &&& pde.small.spec_table_vram_address().raw == pfn.0 * 4096
        }),
{
    law_pde_of_vram_table(pfn);
    lemma_big_vram(0);
}

/// The fields of a word are digits of its number.
proof fn lemma_word_digits(word: u64)
    by (bit_vector)
    ensures
        field64(word, 1, 2) == word / 2 % 4,
        field64(word, 12, 40) == word / 4096 % 0x100_0000_0000,
        field64(word, 8, 44) == word / 256 % 0x1000_0000_0000,
{
}

/// The numbers of the entries that are made.
proof fn lemma_entry_numbers(pfn: u64, frame: u64)
    by (bit_vector)
    ensures
        pde_vram(pfn) == pfn % 0x100_0000_0000 * 4096 + 2,
        pte_vram(pfn, true) == pfn % 0x100_0000_0000 * 4096 + 64 + 1,
        pte_vram(pfn, false) == pfn % 0x100_0000_0000 * 4096 + 64 + 32 + 1,
        big_vram(frame) == frame % 0x1000_0000_0000 * 256 + 2,
        pde_invalid() == 0,
{
}

/// The entry of a page or table in video memory has the 40 bits of its frame number from bit 12 on.
/// Below that a PDE has the aperture 1 in bits 2:1, and a PTE has the valid bit 0, the bit 6 that disables
/// atomics and, where it is not writable, the read-only bit 5. The invalid PDE is zero.
pub proof fn law_entry_numbers(pfn: u64)
    ensures
        pde_vram(pfn) == pfn % 0x100_0000_0000 * 4096 + 2,
        pte_vram(pfn, true) == pfn % 0x100_0000_0000 * 4096 + 65,
        pte_vram(pfn, false) == pfn % 0x100_0000_0000 * 4096 + 97,
        pde_invalid() == 0,
{
    lemma_entry_numbers(pfn, 0);
}

/// The big page table pointer of a table in video memory has the address of the table, which is
/// 256-byte aligned, in its place, and the aperture 1 in bits 2:1.
pub proof fn law_big_pointer_number(address: u64)
    requires
        address % 256 == 0,
        address < 0x10_0000_0000_0000,
    ensures
        big_vram((address / 256) as u64) == address + 2,
{
    lemma_entry_numbers(0, (address / 256) as u64);
}

/// What every word says as an entry: a PDE or a big page table pointer points to a table where the
/// aperture in bits 2:1 is not 0. The frame number is in the 40 bits from bit 12 on, and a big page
/// table is at 256 times the number in the 44 bits from bit 8 on.
pub proof fn law_entry_of_any_word(word: u64)
    ensures
        (Pte { raw: word }).spec_frame_number().0 == word / 4096 % 0x100_0000_0000,
        ({
            let pde = Pde { raw: word };
            &&& pde.spec_valid() <==> word / 2 % 4 != 0
            &&& word / 2 % 4 == 0 <==> pde.spec_aperture() == AperturePde::Invalid
            &&& word / 2 % 4 == 1 <==> pde.spec_aperture() == AperturePde::VideoMemory
            &&& word / 2 % 4 == 2 <==> pde.spec_aperture() == AperturePde::SystemCoherent
            &&& word / 2 % 4 == 3 <==> pde.spec_aperture() == AperturePde::SystemNonCoherent
            &&& pde.spec_table_vram_address().raw == (word / 4096 % 0x100_0000_0000) * 4096
        }),
        ({
            let big = DualPdeBig { raw: word };
            &&& big.spec_valid() <==> word / 2 % 4 != 0
            &&& big.spec_aperture() == (Pde { raw: word }).spec_aperture()
            &&& big.spec_table_vram_address().raw == (word / 256 % 0x1000_0000_0000) * 256
        }),
{
    lemma_word_digits(word);
}

} // verus!
