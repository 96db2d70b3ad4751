//! MMU v2 page table types for Turing, Ampere and Ada GPUs.

use vstd::prelude::*;

use crate::bits::{field64, get_field64, lemma_mask64_values, set_field64, with_field64};
use crate::mm::addr::{Pfn, VramAddress};
use crate::mm::pagetable::{AperturePde, AperturePte};

verus! {

/// Page Table Entry for MMU v2: valid in bit 0, the aperture in bits 2:1, read-only in bit 6 and the
/// frame number in bits 32:8 for video memory, in bits 53:8 for system memory.
#[derive(Debug, Clone, Copy, PartialEq, Eq, Structural)]
pub struct Pte {
    pub raw: u64,
}

/// The PTE of a page in video memory.
pub open spec fn pte_vram(pfn: u64, writable: bool) -> u64 {
    with_field64(
        with_field64(with_field64(with_field64(0, 0, 1, 1), 1, 2, 0), 8, 25, pfn),
        6,
        1,
        if writable {
            0
        } else {
            1
        },
    )
}

impl Pte {
    /// The aperture.
    pub open spec fn spec_aperture(self) -> AperturePte {
        AperturePte::of_code(field64(self.raw, 1, 2))
    }

    /// The frame number, whose width depends on the aperture.
    pub open spec fn spec_frame_number(self) -> Pfn {
        if self.spec_aperture() == AperturePte::VideoMemory {
            Pfn(field64(self.raw, 8, 25))
        } else {
            Pfn(field64(self.raw, 8, 46))
        }
    }

    /// Create a PTE from a `u64` value.
    pub fn new(val: u64) -> (pte: Self)
        ensures
            pte.raw == val,
    {
        Pte { raw: val }
    }

    /// Create a valid PTE for video memory.
    pub fn new_vram(pfn: Pfn, writable: bool) -> (pte: Self)
        ensures
            pte.raw == pte_vram(pfn.0, writable),
    {
        let raw: u64 = set_field64(set_field64(0, 0, 1, 1), 1, 2, 0);
        let raw: u64 = set_field64(raw, 8, 25, pfn.0);
        Pte {
            raw: set_field64(
                raw,
                6,
                1,
                if writable {
                    0
                } else {
                    1
                },
            ),
        }
    }

    /// Create an invalid PTE.
    pub fn invalid() -> (pte: Self)
        ensures
            pte.raw == 0,
    {
        Pte { raw: 0 }
    }

    /// Check if this PTE is valid.
    pub fn is_valid(&self) -> (valid: bool)
        ensures
            valid == (field64(self.raw, 0, 1) == 1),
    {
        get_field64(self.raw, 0, 1) == 1
    }

    /// Returns the memory aperture.
    pub fn aperture(&self) -> (aperture: AperturePte)
        ensures
            aperture == self.spec_aperture(),
    {
        AperturePte::from_bits(get_field64(self.raw, 1, 2))
    }

    /// Get the frame number based on aperture type.
    pub fn frame_number(&self) -> (pfn: Pfn)
        ensures
            pfn == self.spec_frame_number(),
    {
        match self.aperture() {
            AperturePte::VideoMemory => Pfn(get_field64(self.raw, 8, 25)),
            _ => Pfn(get_field64(self.raw, 8, 46)),
        }
    }

    /// Get the raw `u64` value.
    pub fn raw_u64(&self) -> (raw: u64)
        ensures
            raw == self.raw,
    {
        self.raw
    }
}

/// The fields of the PTE of a page in video memory.
proof fn lemma_pte_vram(pfn: u64, writable: bool)
    by (bit_vector)
    ensures
        field64(pte_vram(pfn, writable), 0, 1) == 1,
        field64(pte_vram(pfn, writable), 1, 2) == 0,
        field64(pte_vram(pfn, writable), 6, 1) == if writable {
            0u64
        } else {
            1
        },
        pfn < 0x200_0000 ==> field64(pte_vram(pfn, writable), 8, 25) == pfn,
{
}

/// A PTE made for a page in video memory is valid, points to that page and is read-only where it is
/// not writable. The invalid PTE is not valid.
pub proof fn law_pte_of_vram_page(pfn: Pfn, writable: bool)
    requires
        pfn.0 < 0x200_0000,
    ensures
        ({
            let pte = Pte { raw: pte_vram(pfn.0, writable) };
            &&& field64(pte.raw, 0, 1) == 1
            &&& pte.spec_aperture() == AperturePte::VideoMemory
            &&& pte.spec_frame_number() == pfn
            &&& field64(pte.raw, 6, 1) == 0 <==> writable
        }),
        field64(0, 0, 1) == 0,
{
    lemma_pte_vram(pfn.0, writable);
    lemma_zero_fields();
}

/// The fields of a word of zeros are zero.
proof fn lemma_zero_fields()
    by (bit_vector)
    ensures
        field64(0, 0, 1) == 0,
        field64(0, 1, 2) == 0,
{
}

/// Page Directory Entry for MMU v2: an inverted valid bit in bit 0, the aperture in bits 2:1 and the
/// frame number of the table in bits 32:8 for video memory, in bits 53:8 for system memory.
#[derive(Debug, Clone, Copy, PartialEq, Eq, Structural)]
pub struct Pde {
    pub raw: u64,
}

/// The PDE of a table in video memory.
pub open spec fn pde_vram(pfn: u64) -> u64 {
    with_field64(with_field64(with_field64(0, 0, 1, 0), 1, 2, 1), 8, 25, pfn)
}

/// The PDE that points to no table.
pub open spec fn pde_invalid() -> u64 {
    with_field64(with_field64(0, 0, 1, 1), 1, 2, 0)
}

impl Pde {
    /// The aperture.
    pub open spec fn spec_aperture(self) -> AperturePde {
        AperturePde::of_code(field64(self.raw, 1, 2))
    }

    /// Whether the entry points to a table.
    pub open spec fn spec_valid(self) -> bool {
        field64(self.raw, 0, 1) == 0 && self.spec_aperture() != AperturePde::Invalid
    }

    /// The address of a table in video memory.
    pub open spec fn spec_table_vram_address(self) -> VramAddress {
        VramAddress { raw: (field64(self.raw, 8, 25) * 4096) as u64 }
    }

    /// Create a PDE from a `u64` value.
    pub fn new(val: u64) -> (pde: Self)
        ensures
            pde.raw == val,
    {
        Pde { raw: val }
    }

    /// Create a valid PDE pointing to a page table in video memory.
    pub fn new_vram(table_pfn: Pfn) -> (pde: Self)
        ensures
            pde.raw == pde_vram(table_pfn.0),
    {
        let raw: u64 = set_field64(set_field64(0, 0, 1, 0), 1, 2, 1);
        Pde { raw: set_field64(raw, 8, 25, table_pfn.0) }
    }

    /// Create an invalid PDE.
    pub fn invalid() -> (pde: Self)
        ensures
            pde.raw == pde_invalid(),
    {
        Pde { raw: set_field64(set_field64(0, 0, 1, 1), 1, 2, 0) }
    }

    /// Check if this PDE is valid.
    pub fn is_valid(&self) -> (valid: bool)
        ensures
            valid == self.spec_valid(),
    {
        get_field64(self.raw, 0, 1) == 0 && self.aperture() != AperturePde::Invalid
    }

    /// Get the memory aperture of this PDE.
    pub fn aperture(&self) -> (aperture: AperturePde)
        ensures
            aperture == self.spec_aperture(),
    {
        AperturePde::from_bits(get_field64(self.raw, 1, 2))
    }

    /// Check if this PDE is valid and points to video memory.
    pub fn is_valid_vram(&self) -> (valid: bool)
        ensures
            valid == (self.spec_valid() && self.spec_aperture() == AperturePde::VideoMemory),
    {
        self.is_valid() && self.aperture() == AperturePde::VideoMemory
    }

    /// Get the table frame number based on aperture type.
    pub fn table_frame(&self) -> (pfn: Pfn)
        ensures
            pfn.0 == if self.spec_aperture() == AperturePde::VideoMemory {
                field64(self.raw, 8, 25)
            } else {
                field64(self.raw, 8, 46)
            },
    {
        match self.aperture() {
            AperturePde::VideoMemory => Pfn(get_field64(self.raw, 8, 25)),
            _ => Pfn(get_field64(self.raw, 8, 46)),
        }
    }

    /// Get the VRAM address of the page table, which has to be in video memory.
    pub fn table_vram_address(&self) -> (address: VramAddress)
        ensures
            address == self.spec_table_vram_address(),
            address.raw < 0x20_0000_0000,
    {
        proof {
            lemma_mask64_values();
        }
        VramAddress { raw: get_field64(self.raw, 8, 25) * 4096 }
    }

    /// Get the raw `u64` value of the PDE.
    pub fn raw_u64(&self) -> (raw: u64)
        ensures
            raw == self.raw,
    {
        self.raw
    }
}

/// The fields of the PDEs that are made.
proof fn lemma_pde_vram(pfn: u64)
    by (bit_vector)
    ensures
        field64(pde_vram(pfn), 0, 1) == 0,
        field64(pde_vram(pfn), 1, 2) == 1,
        pfn < 0x200_0000 ==> field64(pde_vram(pfn), 8, 25) == pfn,
        field64(pde_invalid(), 0, 1) == 1,
{
}

/// A PDE made for a table in video memory is valid and points to that table. The invalid PDE is not
/// valid.
pub proof fn law_pde_of_vram_table(pfn: Pfn)
    requires
        pfn.0 < 0x200_0000,
    ensures
        ({
            let pde = Pde { raw: pde_vram(pfn.0) };
            &&& pde.spec_valid()
            &&& pde.spec_aperture() == AperturePde::VideoMemory
            &&& pde.spec_table_vram_address().raw == pfn.0 * 4096
        }),
        !(Pde { raw: pde_invalid() }).spec_valid(),
{
    lemma_pde_vram(pfn.0);
}

/// Dual PDE at Level 3 - 128-bit entry of Large/Small Page Table pointers.
///
/// The dual PDE supports both large (64KB) and small (4KB) page tables.
#[derive(Debug, Clone, Copy, PartialEq, Eq, Structural)]
pub struct DualPde {
    /// Large/Big Page Table pointer (lower 64 bits).
    pub big: Pde,
    /// Small Page Table pointer (upper 64 bits).
    pub small: Pde,
}

impl DualPde {
    /// Create a dual PDE from raw 128-bit value (two `u64`s).
    pub fn new(big: u64, small: u64) -> (pde: Self)
        ensures
            pde.big.raw == big,
            pde.small.raw == small,
    {
        DualPde { big: Pde { raw: big }, small: Pde { raw: small } }
    }

    /// Create a dual PDE with only the small page table pointer set.
    ///
    /// Note: The big (LPT) portion is set to 0, not `Pde::invalid()`. Clearing bit 0 of the 128-bit
    /// entry makes the PDE behave as a "normal" PDE. `Pde::invalid()` would set bit 0, which breaks
    /// page table walking.
    pub fn new_small(table_pfn: Pfn) -> (pde: Self)
        ensures
            pde.big.raw == 0,
            pde.small.raw == pde_vram(table_pfn.0),
    {
        DualPde { big: Pde { raw: 0 }, small: Pde::new_vram(table_pfn) }
    }

    /// Check if the small page table pointer is valid.
    pub fn has_small(&self) -> (valid: bool)
        ensures
            valid == self.small.spec_valid(),
    {
        self.small.is_valid()
    }

    /// Check if the big page table pointer is valid.
    pub fn has_big(&self) -> (valid: bool)
        ensures
            valid == self.big.spec_valid(),
    {
        self.big.is_valid()
    }

    /// Get the small page table PFN.
    pub fn small_pfn(&self) -> (pfn: Pfn)
        ensures
            pfn.0 == if self.small.spec_aperture() == AperturePde::VideoMemory {
                field64(self.small.raw, 8, 25)
            } else {
                field64(self.small.raw, 8, 46)
            },
    {
        self.small.table_frame()
    }
}

/// A dual PDE made for a small page table has a small table, and no big one.
pub proof fn law_dual_pde_small_only(pfn: Pfn)
    requires
        pfn.0 < 0x200_0000,
    ensures
        ({
            let pde = DualPde { big: Pde { raw: 0 }, small: Pde { raw: pde_vram(pfn.0) } };
            &&& pde.small.spec_valid()
            &&& !pde.big.spec_valid()
            &&& pde.small.spec_table_vram_address().raw == pfn.0 * 4096
        }),
{
    law_pde_of_vram_table(pfn);
    lemma_zero_fields();
}

/// The fields of a word are digits of its number.
proof fn lemma_word_digits(word: u64)
    by (bit_vector)
    ensures
        field64(word, 0, 1) == word % 2,
        field64(word, 1, 2) == word / 2 % 4,
        field64(word, 8, 25) == word / 256 % 0x200_0000,
        field64(word, 8, 46) == word / 256 % 0x4000_0000_0000,
{
}

/// The numbers of the entries that are made.
proof fn lemma_entry_numbers(pfn: u64)
    by (bit_vector)
    ensures
        pde_vram(pfn) == pfn % 0x200_0000 * 256 + 2,
        pte_vram(pfn, true) == pfn % 0x200_0000 * 256 + 1,
        pte_vram(pfn, false) == pfn % 0x200_0000 * 256 + 64 + 1,
        pde_invalid() == 1,
{
}

/// The entry of a page or table in video memory has the 25 bits of its frame number from bit 8 on.
/// Below that a PDE has the aperture 1 in bits 2:1, and a PTE has the valid bit 0 and, where it is not writable,
/// the read-only bit 6. The invalid PDE has only the inverted valid bit.
pub proof fn law_entry_numbers(pfn: u64)
    ensures
        pde_vram(pfn) == pfn % 0x200_0000 * 256 + 2,
        pte_vram(pfn, true) == pfn % 0x200_0000 * 256 + 1,
        pte_vram(pfn, false) == pfn % 0x200_0000 * 256 + 65,
        pde_invalid() == 1,
{
    lemma_entry_numbers(pfn);
}

/// What every word says as a PTE: the aperture is the number in bits 2:1, and the frame number is
/// in the 25 bits from bit 8 on for video memory, in 46 bits for the other apertures.
pub proof fn law_pte_of_any_word(word: u64)
    ensures
        ({
            let pte = Pte { raw: word };
            &&& word / 2 % 4 == 0 <==> pte.spec_aperture() == AperturePte::VideoMemory
            &&& word / 2 % 4 == 1 <==> pte.spec_aperture() == AperturePte::PeerMemory
            &&& word / 2 % 4 == 2 <==> pte.spec_aperture() == AperturePte::SystemCoherent
            &&& word / 2 % 4 == 3 <==> pte.spec_aperture() == AperturePte::SystemNonCoherent
            &&& word / 2 % 4 == 0 ==> pte.spec_frame_number().0 == word / 256 % 0x200_0000
            &&& word / 2 % 4 != 0 ==> pte.spec_frame_number().0 == word / 256 % 0x4000_0000_0000
        }),
{
    lemma_word_digits(word);
}

/// What every word says as a PDE: it points to a table where bit 0 is clear and the aperture in bits
/// 2:1 is not 0, and a table in video memory is at the frame in the 25 bits from bit 8 on.
pub proof fn law_pde_of_any_word(word: u64)
    ensures
        ({
            let pde = Pde { raw: word };
            &&& pde.spec_valid() <==> word % 2 == 0 && word / 2 % 4 != 0
            &&& word / 2 % 4 == 0 <==> pde.spec_aperture() == AperturePde::Invalid
            &&& word / 2 % 4 == 1 <==> pde.spec_aperture() == AperturePde::VideoMemory
            &&& word / 2 % 4 == 2 <==> pde.spec_aperture() == AperturePde::SystemCoherent
            &&& word / 2 % 4 == 3 <==> pde.spec_aperture() == AperturePde::SystemNonCoherent
            &&& pde.spec_table_vram_address().raw == (word / 256 % 0x200_0000) * 4096
        }),
{
    lemma_word_digits(word);
}

} // verus!
