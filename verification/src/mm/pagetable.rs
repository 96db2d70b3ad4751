//! Page tables, with the types shared between MMU v2 and v3.

pub mod ver2;
pub mod ver3;
pub mod walk;

use vstd::prelude::*;

use crate::gpu::Architecture;

verus! {

/// MMU version enumeration.
#[derive(Debug, Clone, Copy, PartialEq, Eq, Structural)]
pub enum MmuVersion {
    /// MMU v2 for Turing/Ampere/Ada.
    V2,
    /// MMU v3 for Hopper and later.
    V3,
}

impl From<Architecture> for MmuVersion {
    fn from(arch: Architecture) -> (version: Self) {
        match arch {
            Architecture::Turing | Architecture::Ampere | Architecture::Ada => MmuVersion::V2,
            Architecture::Hopper | Architecture::BlackwellGB10x | Architecture::BlackwellGB20x => {
                MmuVersion::V3
            },
        }
    }
}

impl vstd::std_specs::convert::FromSpecImpl<Architecture> for MmuVersion {
    open spec fn obeys_from_spec() -> bool {
        true
    }

    open spec fn from_spec(arch: Architecture) -> Self {
        match arch {
            Architecture::Turing | Architecture::Ampere | Architecture::Ada => MmuVersion::V2,
            _ => MmuVersion::V3,
        }
    }
}

impl MmuVersion {
    /// The number of levels whose entries point to another table.
    pub open spec fn spec_pde_levels(self) -> nat {
        match self {
            MmuVersion::V2 => 4,
            MmuVersion::V3 => 5,
        }
    }

    /// Returns the number of levels whose entries point to another table. They are the first ones.
    pub fn pde_levels(self) -> (levels: usize)
        ensures
            levels == self.spec_pde_levels(),
    {
        match self {
            MmuVersion::V2 => 4,
            MmuVersion::V3 => 5,
        }
    }

    /// Returns the level whose entries are 128 bits wide, the last one before the PTEs.
    pub fn dual_pde_level(self) -> (level: PageTableLevel)
        ensures
            level.spec_index() == self.spec_pde_levels() - 1,
    {
        match self {
            MmuVersion::V2 => PageTableLevel::L3,
            MmuVersion::V3 => PageTableLevel::L4,
        }
    }

    /// Returns the level of the PTEs.
    pub fn pte_level(self) -> (level: PageTableLevel)
        ensures
            level.spec_index() == self.spec_pde_levels(),
    {
        match self {
            MmuVersion::V2 => PageTableLevel::L4,
            MmuVersion::V3 => PageTableLevel::L5,
        }
    }

    /// The size of an entry at a level, in bytes.
    pub open spec fn spec_entry_size(self, level: nat) -> nat {
        if level + 1 == self.spec_pde_levels() {
            16
        } else {
            8
        }
    }

    /// Returns the size of an entry at a level, in bytes. Entries are 64 bits wide, except for dual
    /// PDEs, which are 128 bits wide.
    pub fn entry_size(self, level: PageTableLevel) -> (size: usize)
        ensures
            size == self.spec_entry_size(level.spec_index() as nat),
    {
        if level == self.dual_pde_level() {
            16
        } else {
            8
        }
    }
}

/// Page Table Level hierarchy for MMU v2/v3.
#[derive(Debug, Clone, Copy, PartialEq, Eq, Structural)]
pub enum PageTableLevel {
    /// Level 0 - Page Directory Base (root).
    Pdb,
    /// Level 1 - Intermediate page directory.
    L1,
    /// Level 2 - Intermediate page directory.
    L2,
    /// Level 3 - Intermediate page directory or dual PDE (version-dependent).
    L3,
    /// Level 4 - PTE level for v2, intermediate page directory for v3.
    L4,
    /// Level 5 - PTE level used for MMU v3 only.
    L5,
}

impl PageTableLevel {
    /// Number of entries per page table (512 for 4KB pages).
    pub const ENTRIES_PER_TABLE: usize = 512;

    /// The place of this level in the hierarchy.
    pub open spec fn spec_index(self) -> u64 {
        match self {
            PageTableLevel::Pdb => 0,
            PageTableLevel::L1 => 1,
            PageTableLevel::L2 => 2,
            PageTableLevel::L3 => 3,
            PageTableLevel::L4 => 4,
            PageTableLevel::L5 => 5,
        }
    }

    /// Get the next level in the hierarchy.
    pub fn next(&self) -> (level: Option<PageTableLevel>)
        ensures
            match level {
                Some(level) => level.spec_index() == self.spec_index() + 1,
                None => *self == PageTableLevel::L5,
            },
    {
        match self {
            PageTableLevel::Pdb => Some(PageTableLevel::L1),
            PageTableLevel::L1 => Some(PageTableLevel::L2),
            PageTableLevel::L2 => Some(PageTableLevel::L3),
            PageTableLevel::L3 => Some(PageTableLevel::L4),
            PageTableLevel::L4 => Some(PageTableLevel::L5),
            PageTableLevel::L5 => None,
        }
    }

    /// Convert level to index.
    pub fn as_index(&self) -> (index: u64)
        ensures
            index == self.spec_index(),
    {
        match self {
            PageTableLevel::Pdb => 0,
            PageTableLevel::L1 => 1,
            PageTableLevel::L2 => 2,
            PageTableLevel::L3 => 3,
            PageTableLevel::L4 => 4,
            PageTableLevel::L5 => 5,
        }
    }
}

/// Memory aperture for Page Table Entries (`PTE`s).
///
/// Determines which memory region the `PTE` points to.
#[derive(Debug, Clone, Copy, PartialEq, Eq, Structural)]
pub enum AperturePte {
    /// Local video memory (VRAM).
    VideoMemory,
    /// Peer GPU's video memory.
    PeerMemory,
    /// System memory with cache coherence.
    SystemCoherent,
    /// System memory without cache coherence.
    SystemNonCoherent,
}

impl AperturePte {
    /// The two-bit number of this aperture.
    pub open spec fn code(self) -> u64 {
        match self {
            AperturePte::VideoMemory => 0,
            AperturePte::PeerMemory => 1,
            AperturePte::SystemCoherent => 2,
            AperturePte::SystemNonCoherent => 3,
        }
    }

    /// The aperture of a number.
    pub open spec fn of_code(code: u64) -> AperturePte {
        if code == 1 {
            AperturePte::PeerMemory
        } else if code == 2 {
            AperturePte::SystemCoherent
        } else if code == 3 {
            AperturePte::SystemNonCoherent
        } else {
            AperturePte::VideoMemory
        }
    }

    /// Returns the aperture of a number.
    pub fn from_bits(value: u64) -> (aperture: Self)
        ensures
            aperture == Self::of_code(value),
    {
        match value {
            1 => AperturePte::PeerMemory,
            2 => AperturePte::SystemCoherent,
            3 => AperturePte::SystemNonCoherent,
            _ => AperturePte::VideoMemory,
        }
    }

    /// Returns the two-bit number of this aperture.
    pub fn into_bits(self) -> (code: u64)
        ensures
            code == self.code(),
    {
        match self {
            AperturePte::VideoMemory => 0,
            AperturePte::PeerMemory => 1,
            AperturePte::SystemCoherent => 2,
            AperturePte::SystemNonCoherent => 3,
        }
    }
}

/// Memory aperture for Page Directory Entries (`PDE`s).
///
/// Note: For `PDE`s, `Invalid` (0) means the entry is not valid.
#[derive(Debug, Clone, Copy, PartialEq, Eq, Structural)]
pub enum AperturePde {
    /// Invalid/unused entry.
    Invalid,
    /// Page table is in video memory.
    VideoMemory,
    /// Page table is in system memory with coherence.
    SystemCoherent,
    /// Page table is in system memory without coherence.
    SystemNonCoherent,
}

impl AperturePde {
    /// The two-bit number of this aperture.
    pub open spec fn code(self) -> u64 {
        match self {
            AperturePde::Invalid => 0,
            AperturePde::VideoMemory => 1,
            AperturePde::SystemCoherent => 2,
            AperturePde::SystemNonCoherent => 3,
        }
    }

    /// The aperture of a number.
    pub open spec fn of_code(code: u64) -> AperturePde {
        if code == 1 {
            AperturePde::VideoMemory
        } else if code == 2 {
            AperturePde::SystemCoherent
        } else if code == 3 {
            AperturePde::SystemNonCoherent
        } else {
            AperturePde::Invalid
        }
    }

    /// Returns the aperture of a number.
    pub fn from_bits(value: u64) -> (aperture: Self)
        ensures
            aperture == Self::of_code(value),
    {
        match value {
            1 => AperturePde::VideoMemory,
            2 => AperturePde::SystemCoherent,
            3 => AperturePde::SystemNonCoherent,
            _ => AperturePde::Invalid,
        }
    }

    /// Returns the two-bit number of this aperture.
    pub fn into_bits(self) -> (code: u64)
        ensures
            code == self.code(),
    {
        match self {
            AperturePde::Invalid => 0,
            AperturePde::VideoMemory => 1,
            AperturePde::SystemCoherent => 2,
            AperturePde::SystemNonCoherent => 3,
        }
    }
}

/// Every aperture is the one that its number stands for.
pub proof fn law_aperture_codes(pte: AperturePte, pde: AperturePde)
    ensures
        AperturePte::of_code(pte.code()) == pte,
        AperturePde::of_code(pde.code()) == pde,
        pte.code() < 4,
        pde.code() < 4,
{
}

/// Turing, Ampere and Ada have MMU v2, and the architectures after them MMU v3.
pub proof fn law_mmu_version_of_architecture(arch: Architecture)
    ensures
        <MmuVersion as vstd::std_specs::convert::FromSpec<Architecture>>::from_spec(arch)
            == MmuVersion::V2 <==> (arch == Architecture::Turing || arch == Architecture::Ampere
            || arch == Architecture::Ada),
{
}

/// The levels are numbered in order from the page directory base on. Of the levels, the first four
/// hold PDEs with MMU v2 and the first five with MMU v3, and only the last of these has entries of
/// 16 bytes.
pub proof fn law_levels(level: nat)
    ensures
        PageTableLevel::Pdb.spec_index() == 0,
        PageTableLevel::L1.spec_index() == 1,
        PageTableLevel::L2.spec_index() == 2,
        PageTableLevel::L3.spec_index() == 3,
        PageTableLevel::L4.spec_index() == 4,
        PageTableLevel::L5.spec_index() == 5,
        MmuVersion::V2.spec_pde_levels() == 4,
        MmuVersion::V3.spec_pde_levels() == 5,
        MmuVersion::V2.spec_entry_size(level) == if level == 3 {
            16nat
        } else {
            8
        },
        MmuVersion::V3.spec_entry_size(level) == if level == 4 {
            16nat
        } else {
            8
        },
{
}

/// What the numbers of the apertures stand for. A number of 4 or more is taken as video memory in a
/// PTE and as invalid in a PDE, as 0 is.
pub proof fn law_apertures_of_numbers(code: u64)
    ensures
        AperturePte::PeerMemory.code() == 1,
        AperturePte::SystemCoherent.code() == 2,
        AperturePte::SystemNonCoherent.code() == 3,
        AperturePde::VideoMemory.code() == 1,
        AperturePde::SystemCoherent.code() == 2,
        AperturePde::SystemNonCoherent.code() == 3,
        AperturePte::of_code(code) == AperturePte::VideoMemory <==> code == 0 || code >= 4,
        AperturePde::of_code(code) == AperturePde::Invalid <==> code == 0 || code >= 4,
        code < 4 ==> AperturePte::of_code(code).code() == code,
        code < 4 ==> AperturePde::of_code(code).code() == code,
{
}

} // verus!
