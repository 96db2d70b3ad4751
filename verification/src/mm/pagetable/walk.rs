//! Page table walker.
//!
//! # Page Table Hierarchy
//!
//! MMU v2 (Turing/Ampere/Ada) has five levels: the PDB (L0), L1 and L2 hold 64-bit PDEs, L3 holds
//! 128-bit dual PDEs (big and small) and L4 holds 64-bit PTEs. MMU v3 (Hopper+) has six: the PDB
//! (L0) to L3 hold 64-bit PDEs, L4 holds 128-bit dual PDEs and L5 holds 64-bit PTEs.

use vstd::prelude::*;

use crate::bits::field64;
use crate::mm::addr::{Pfn, VramAddress};
use crate::mm::pagetable::{ver2, ver3, MmuVersion, PageTableLevel};

verus! {

/// Result of walking to a PTE.
#[derive(Debug, Clone, Copy, PartialEq, Eq, Structural)]
pub enum WalkResult {
    /// Intermediate page tables are missing (only returned in lookup mode).
    PageTableMissing,
    /// PTE exists but is invalid (page not mapped).
    Unmapped { pte_addr: VramAddress },
    /// PTE exists and is valid (page is mapped).
    Mapped { pte_addr: VramAddress, pfn: Pfn },
}

/// Result of walking PDE levels only.
#[derive(Debug, Clone, Copy, PartialEq, Eq, Structural)]
pub enum WalkPdeResult {
    /// All PDE levels resolved -- returns PTE page table address.
    Complete {
        /// VRAM address of the PTE-level page table.
        pte_table: VramAddress,
    },
    /// A PDE is missing and no page has been prepared for it.
    Missing {
        /// PDE slot address in the parent page table (where to install).
        install_addr: VramAddress,
        /// The page table level that is missing.
        level: PageTableLevel,
    },
}

/// The words of VRAM, by address.
pub type Words = spec_fn(u64) -> u64;

/// The level at a place in the hierarchy.
pub open spec fn level_at(index: int) -> PageTableLevel {
    if index == 0 {
        PageTableLevel::Pdb
    } else if index == 1 {
        PageTableLevel::L1
    } else if index == 2 {
        PageTableLevel::L2
    } else if index == 3 {
        PageTableLevel::L3
    } else if index == 4 {
        PageTableLevel::L4
    } else {
        PageTableLevel::L5
    }
}

/// The table that an entry word points to, if it points to one. For a dual PDE the word is that of
/// the small page table.
pub open spec fn child_table(version: MmuVersion, word: u64) -> Option<u64> {
    match version {
        MmuVersion::V2 => {
            let pde = ver2::Pde { raw: word };
            if pde.spec_valid() {
                Some(pde.spec_table_vram_address().raw)
            } else {
                None
            }
        },
        MmuVersion::V3 => {
            let pde = ver3::Pde { raw: word };
            if pde.spec_valid() {
                Some(pde.spec_table_vram_address().raw)
            } else {
                None
            }
        },
    }
}

/// The address of the entry `index` of a table at a level.
pub open spec fn entry_address(version: MmuVersion, table: u64, level: int, index: u64) -> u64 {
    (table + index * version.spec_entry_size(level as nat)) as u64
}

/// Whether the words of the entry `index` of a table at a level have addresses.
pub open spec fn entry_fits(version: MmuVersion, table: u64, level: int, index: u64) -> bool {
    let size = version.spec_entry_size(level as nat);
    table + index * size + (size - 8) <= u64::MAX
}

/// The words of every entry have addresses in a table that ends where addresses do, or below.
proof fn lemma_low_table_fits(version: MmuVersion, table: u64, level: int, index: u64)
    requires
        table <= u64::MAX - 8192,
        index < 512,
    ensures
        entry_fits(version, table, level, index),
{
    let size = version.spec_entry_size(level as nat);
    assert(index * size <= 511 * 16) by (nonlinear_arith)
        requires
            index <= 511,
            size <= 16,
    ;
}

/// Returns whether the words of the entry `index` of a table at a level have addresses.
pub fn entry_has_address(
    version: MmuVersion,
    table: VramAddress,
    level: PageTableLevel,
    index: u64,
) -> (result: bool)
    requires
        index < 512,
    ensures
        result == entry_fits(version, table.raw, level.spec_index() as int, index),
{
    let size: usize = version.entry_size(level);
    proof {
        assert(index * size <= 511 * 16) by (nonlinear_arith)
            requires
                index <= 511,
                size <= 16,
        ;
    }
    let last: u64 = index * size as u64 + (size as u64 - 8);
    table.raw <= u64::MAX - last
}

/// The address of the word that decides about an entry. In a dual PDE the small page table pointer
/// is the upper half.
pub open spec fn deciding_address(version: MmuVersion, entry: u64, level: int) -> u64 {
    if level + 1 == version.spec_pde_levels() {
        (entry + 8) as u64
    } else {
        entry
    }
}

/// The outcome of walking the PDE levels from a table on. `indices` are the indices of the virtual
/// address in the tables of each level, and `prepared` gives the table that has been prepared for a
/// missing entry, if one has been.
pub open spec fn walked(
    version: MmuVersion,
    indices: Seq<u64>,
    words: Words,
    prepared: spec_fn(u64) -> Option<u64>,
    level: int,
    table: u64,
) -> WalkPdeResult
    decreases version.spec_pde_levels() - level,
{
    if level < 0 || level >= version.spec_pde_levels() {
        WalkPdeResult::Complete { pte_table: VramAddress { raw: table } }
    } else {
        let entry = entry_address(version, table, level, indices[level]);
        match child_table(version, words(deciding_address(version, entry, level))) {
            Some(child) => walked(version, indices, words, prepared, level + 1, child),
            None => match prepared(entry) {
                Some(child) => walked(version, indices, words, prepared, level + 1, child),
                None => WalkPdeResult::Missing {
                    install_addr: VramAddress { raw: entry },
                    level: level_at(level),
                },
            },
        }
    }
}

/// The outcome of reading the PTE at an address.
pub open spec fn pte_outcome(version: MmuVersion, pte_addr: u64, word: u64) -> WalkResult {
    let pte_addr = VramAddress { raw: pte_addr };
    if field64(word, 0, 1) == 1 {
        WalkResult::Mapped {
            pte_addr,
            pfn: match version {
                MmuVersion::V2 => ver2::Pte { raw: word }.spec_frame_number(),
                MmuVersion::V3 => ver3::Pte { raw: word }.spec_frame_number(),
            },
        }
    } else {
        WalkResult::Unmapped { pte_addr }
    }
}

/// The outcome of looking a virtual address up from the page directory base on.
pub open spec fn looked_up(
    version: MmuVersion,
    indices: Seq<u64>,
    words: Words,
    pdb: u64,
) -> WalkResult {
    match walked(version, indices, words, |entry: u64| None::<u64>, 0, pdb) {
        WalkPdeResult::Missing { .. } => WalkResult::PageTableMissing,
        WalkPdeResult::Complete { pte_table } => {
            let level = version.spec_pde_levels() as int;
            let entry = entry_address(version, pte_table.raw, level, indices[level]);
            pte_outcome(version, entry, words(entry))
        },
    }
}

/// What a walk needs next.
#[derive(Debug, Clone, Copy, PartialEq, Eq, Structural)]
pub enum WalkAction {
    /// The 64-bit word at this address, which decides.
    Read { addr: VramAddress },
    /// The two 64-bit words of a dual PDE, at these addresses. The one of the small page table decides.
    ReadDual { big: VramAddress, small: VramAddress },
    /// Nothing: the walk is over.
    Done { pte_table: VramAddress },
}

/// What a walk does after an entry has been read.
#[derive(Debug, Clone, Copy, PartialEq, Eq, Structural)]
pub enum WalkStep {
    /// The walk has gone on to the next level.
    Descended,
    /// The entry points to no table. The walk goes on with [`PtWalk::resume`] if one has been
    /// prepared for this slot, and ends with this result otherwise.
    Missing(WalkPdeResult),
}

/// Page table walker for NVIDIA GPUs.
///
/// Walks the page table hierarchy (5 levels for v2, 6 for v3) to find PTE locations or resolve
/// virtual addresses.
pub struct PtWalk {
    version: MmuVersion,
    indices: Vec<u64>,
    level: PageTableLevel,
    table: VramAddress,
}

impl PtWalk {
    /// The version of the page tables.
    pub closed spec fn spec_version(&self) -> MmuVersion {
        self.version
    }

    /// The indices of the virtual address in the tables of each level.
    pub closed spec fn spec_indices(&self) -> Seq<u64> {
        self.indices@
    }

    /// The level that the walk has reached.
    pub closed spec fn spec_level(&self) -> int {
        self.level.spec_index() as int
    }

    /// The table that the walk has reached.
    pub closed spec fn spec_table(&self) -> u64 {
        self.table.raw
    }

    /// Whether there is an index for each level and the entry of the table has an address.
    #[verifier::type_invariant]
    spec fn wf(&self) -> bool {
        &&& self.indices@.len() == self.version.spec_pde_levels() + 1
        &&& self.level.spec_index() <= self.version.spec_pde_levels()
        &&& forall|i: int| 0 <= i < self.indices@.len() ==> #[trigger] self.indices@[i] < 512
        &&& entry_fits(
            self.version,
            self.table.raw,
            self.level.spec_index() as int,
            self.indices@[self.level.spec_index() as int],
        )
    }

    /// The outcome of the rest of the walk.
    pub open spec fn outcome(
        &self,
        words: Words,
        prepared: spec_fn(u64) -> Option<u64>,
    ) -> WalkPdeResult {
        walked(
            self.spec_version(),
            self.spec_indices(),
            words,
            prepared,
            self.spec_level(),
            self.spec_table(),
        )
    }

    /// Starts a walk at the page directory base. `indices` are the indices of the virtual address
    /// in the tables of each level, from the page directory base to the PTEs.
    pub fn new(pdb_addr: VramAddress, mmu_version: MmuVersion, indices: Vec<u64>) -> (walk: Self)
        requires
            indices@.len() == mmu_version.spec_pde_levels() + 1,
            forall|i: int| 0 <= i < indices@.len() ==> #[trigger] indices@[i] < 512,
            entry_fits(mmu_version, pdb_addr.raw, 0, indices@[0]),
        ensures
            walk.spec_version() == mmu_version,
            walk.spec_indices() == indices@,
            walk.spec_level() == 0,
            walk.spec_table() == pdb_addr.raw,
    {
        PtWalk { version: mmu_version, indices, level: PageTableLevel::Pdb, table: pdb_addr }
    }

    /// Returns the address of the entry of the current table.
    fn entry_addr(&self) -> (entry: VramAddress)
        ensures
            entry.raw == entry_address(
                self.spec_version(),
                self.spec_table(),
                self.spec_level(),
                self.spec_indices()[self.spec_level()],
            ),
            entry_fits(
                self.spec_version(),
                self.spec_table(),
                self.spec_level(),
                self.spec_indices()[self.spec_level()],
            ),
    {
        proof {
            use_type_invariant(self);
        }
        let index: u64 = self.indices[self.level.as_index() as usize];
        let size: usize = self.version.entry_size(self.level);
        proof {
            assert(index * size <= 511 * 16) by (nonlinear_arith)
                requires
                    index <= 511,
                    size <= 16,
            ;
        }
        VramAddress { raw: self.table.raw + index * size as u64 }
    }

    /// Returns what the walk needs next.
    pub fn action(&self) -> (action: WalkAction)
        ensures
            ({
                let entry = entry_address(
                    self.spec_version(),
                    self.spec_table(),
                    self.spec_level(),
                    self.spec_indices()[self.spec_level()],
                );
                let decides = VramAddress {
                    raw: deciding_address(self.spec_version(), entry, self.spec_level()),
                };
                action == if self.spec_level() >= self.spec_version().spec_pde_levels() {
                    WalkAction::Done { pte_table: VramAddress { raw: self.spec_table() } }
                } else if self.spec_level() + 1 == self.spec_version().spec_pde_levels() {
                    WalkAction::ReadDual { big: VramAddress { raw: entry }, small: decides }
                } else {
                    WalkAction::Read { addr: decides }
                }
            }),
    {
        proof {
            use_type_invariant(self);
        }
        if self.level.as_index() as usize >= self.version.pde_levels() {
            return WalkAction::Done { pte_table: self.table };
        }
        let entry = self.entry_addr();
        if self.level == self.version.dual_pde_level() {
            WalkAction::ReadDual { big: entry, small: VramAddress { raw: entry.raw + 8 } }
        } else {
            WalkAction::Read { addr: entry }
        }
    }

    /// Takes the word that decides, of those that were asked for.
    pub fn on_word(&mut self, word: u64) -> (step: WalkStep)
        requires
            old(self).spec_level() < old(self).spec_version().spec_pde_levels(),
        ensures
            final(self).spec_version() == old(self).spec_version(),
            final(self).spec_indices() == old(self).spec_indices(),
            match child_table(old(self).spec_version(), word) {
                Some(child) => {
                    &&& step == WalkStep::Descended
                    &&& final(self).spec_level() == old(self).spec_level() + 1
                    &&& final(self).spec_table() == child
                },
                None => {
                    &&& step == WalkStep::Missing(
                        WalkPdeResult::Missing {
                            install_addr: VramAddress {
                                raw: entry_address(
                                    old(self).spec_version(),
                                    old(self).spec_table(),
                                    old(self).spec_level(),
                                    old(self).spec_indices()[old(self).spec_level()],
                                ),
                            },
                            level: level_at(old(self).spec_level()),
                        },
                    )
                    &&& *final(self) == *old(self)
                },
            },
    {
        proof {
            use_type_invariant(&*self);
        }
        let child = match self.version {
            MmuVersion::V2 => {
                let pde = ver2::Pde::new(word);
                if pde.is_valid() {
                    Some(pde.table_vram_address())
                } else {
                    None
                }
            },
            MmuVersion::V3 => {
                let pde = ver3::Pde::new(word);
                if pde.is_valid() {
                    Some(pde.table_vram_address())
                } else {
                    None
                }
            },
        };
        match child {
            Some(child) => {
                proof {
                    let next = self.spec_level() + 1;
                    lemma_low_table_fits(self.version, child.raw, next, self.indices@[next]);
                }
                self.descend(child);
                WalkStep::Descended
            },
            None => WalkStep::Missing(
                WalkPdeResult::Missing { install_addr: self.entry_addr(), level: self.level },
            ),
        }
    }

    /// Goes on to the next level, at `table`.
    fn descend(&mut self, table: VramAddress)
        requires
            old(self).spec_level() < old(self).spec_version().spec_pde_levels(),
            old(self).spec_accepts(table.raw),
        ensures
            final(self).spec_version() == old(self).spec_version(),
            final(self).spec_indices() == old(self).spec_indices(),
            final(self).spec_level() == old(self).spec_level() + 1,
            final(self).spec_table() == table.raw,
    {
        proof {
            use_type_invariant(&*self);
        }
        match self.level.next() {
            Some(next) => {
                self.table = VramAddress { raw: 0 };
                self.level = next;
                self.table = table;
            },
            None => {},
        }
    }

    /// Whether the walk can go on to the next level at a table: its entry there has an address.
    pub open spec fn spec_accepts(&self, table: u64) -> bool {
        entry_fits(
            self.spec_version(),
            table,
            self.spec_level() + 1,
            self.spec_indices()[self.spec_level() + 1],
        )
    }

    /// Returns whether the walk can go on to the next level at `table`.
    pub fn accepts(&self, table: VramAddress) -> (result: bool)
        requires
            self.spec_level() < self.spec_version().spec_pde_levels(),
        ensures
            result == self.spec_accepts(table.raw),
    {
        proof {
            use_type_invariant(self);
        }
        match self.level.next() {
            Some(next) => {
                let index: u64 = self.indices[next.as_index() as usize];
                entry_has_address(self.version, table, next, index)
            },
            None => false,
        }
    }

    /// Goes on with a table that has been prepared for the missing entry.
    pub fn resume(&mut self, prepared: VramAddress)
        requires
            old(self).spec_level() < old(self).spec_version().spec_pde_levels(),
            old(self).spec_accepts(prepared.raw),
        ensures
            final(self).spec_version() == old(self).spec_version(),
            final(self).spec_indices() == old(self).spec_indices(),
            final(self).spec_level() == old(self).spec_level() + 1,
            final(self).spec_table() == prepared.raw,
    {
        self.descend(prepared);
    }

    /// Returns the address of the PTE, once all PDE levels have been walked.
    pub fn pte_addr(&self) -> (addr: VramAddress)
        requires
            self.spec_level() == self.spec_version().spec_pde_levels(),
        ensures
            addr.raw == entry_address(
                self.spec_version(),
                self.spec_table(),
                self.spec_level(),
                self.spec_indices()[self.spec_level()],
            ),
    {
        self.entry_addr()
    }

    /// Returns what the word of the PTE at `pte_addr` means.
    pub fn on_pte(&self, pte_addr: VramAddress, word: u64) -> (result: WalkResult)
        ensures
            result == pte_outcome(self.spec_version(), pte_addr.raw, word),
    {
        match self.version {
            MmuVersion::V2 => {
                let pte = ver2::Pte::new(word);
                if pte.is_valid() {
                    WalkResult::Mapped { pte_addr, pfn: pte.frame_number() }
                } else {
                    WalkResult::Unmapped { pte_addr }
                }
            },
            MmuVersion::V3 => {
                let pte = ver3::Pte::new(word);
                if pte.is_valid() {
                    WalkResult::Mapped { pte_addr, pfn: pte.frame_number() }
                } else {
                    WalkResult::Unmapped { pte_addr }
                }
            },
        }
    }
}

/// Handing a walk the word that it asks for leaves its outcome as it was: `next` is the walk one
/// level further down, where the entry points to a table or one has been prepared for it.
pub proof fn law_step_keeps_outcome(
    walk: PtWalk,
    next: PtWalk,
    words: Words,
    prepared: spec_fn(u64) -> Option<u64>,
)
    requires
        0 <= walk.spec_level() < walk.spec_version().spec_pde_levels(),
        next.spec_version() == walk.spec_version(),
        next.spec_indices() == walk.spec_indices(),
        next.spec_level() == walk.spec_level() + 1,
        ({
            let entry = entry_address(
                walk.spec_version(),
                walk.spec_table(),
                walk.spec_level(),
                walk.spec_indices()[walk.spec_level()],
            );
            let word = words(deciding_address(walk.spec_version(), entry, walk.spec_level()));
            match child_table(walk.spec_version(), word) {
                Some(child) => next.spec_table() == child,
                None => prepared(entry) == Some(next.spec_table()),
            }
        }),
    ensures
        next.outcome(words, prepared) == walk.outcome(words, prepared),
{
}

/// A page that has been installed is found: where the walk is complete and the PTE in its place is
/// one made for a page, the lookup gives that page.
pub proof fn law_lookup_finds_installed_page(
    version: MmuVersion,
    indices: Seq<u64>,
    words: Words,
    pdb: u64,
    pte_table: u64,
    pfn: Pfn,
    writable: bool,
)
    requires
        walked(version, indices, words, |entry: u64| None::<u64>, 0, pdb) == (
        WalkPdeResult::Complete { pte_table: VramAddress { raw: pte_table } }),
        ({
            let level = version.spec_pde_levels() as int;
            let entry = entry_address(version, pte_table, level, indices[level]);
            match version {
                MmuVersion::V2 => pfn.0 < 0x200_0000 && words(entry) == ver2::pte_vram(
                    pfn.0,
                    writable,
                ),
                MmuVersion::V3 => pfn.0 < 0x100_0000_0000 && words(entry) == ver3::pte_vram(
                    pfn.0,
                    writable,
                ),
            }
        }),
    ensures
        ({
            let level = version.spec_pde_levels() as int;
            looked_up(version, indices, words, pdb) == (WalkResult::Mapped {
                pte_addr: VramAddress {
                    raw: entry_address(version, pte_table, level, indices[level]),
                },
                pfn,
            })
        }),
{
    match version {
        MmuVersion::V2 => {
            ver2::law_pte_of_vram_page(pfn, writable);
        },
        MmuVersion::V3 => {
            ver3::law_pte_of_vram_page(pfn, writable);
        },
    }
}

/// What every entry word leads to. With MMU v2 a word with a clear bit 0 and an aperture in bits 2:1
/// leads to the table whose frame is in the 25 bits from bit 8 on. With MMU v3 one with an aperture
/// leads to the table whose frame is in the 40 bits from bit 12 on. Every other word is a missing
/// table.
pub proof fn law_child_of_any_word(word: u64)
    ensures
        word % 2 == 0 && word / 2 % 4 != 0 ==> child_table(MmuVersion::V2, word) == Some(
            (word / 256 % 0x200_0000 * 4096) as u64,
        ),
        word % 2 != 0 || word / 2 % 4 == 0 ==> child_table(MmuVersion::V2, word) is None,
        word / 2 % 4 != 0 ==> child_table(MmuVersion::V3, word) == Some(
            (word / 4096 % 0x100_0000_0000 * 4096) as u64,
        ),
        word / 2 % 4 == 0 ==> child_table(MmuVersion::V3, word) is None,
{
    ver2::law_pde_of_any_word(word);
    ver3::law_entry_of_any_word(word);
}

/// An entry that was made for a table leads to that table, and one that was made invalid to none.
pub proof fn law_child_of_made_entry(pfn: u64)
    ensures
        pfn < 0x200_0000 ==> child_table(MmuVersion::V2, ver2::pde_vram(pfn)) == Some(
            (pfn * 4096) as u64,
        ),
        pfn < 0x100_0000_0000 ==> child_table(MmuVersion::V3, ver3::pde_vram(pfn)) == Some(
            (pfn * 4096) as u64,
        ),
        child_table(MmuVersion::V2, ver2::pde_invalid()) is None,
        child_table(MmuVersion::V3, ver3::pde_invalid()) is None,
{
    if pfn < 0x200_0000 {
        ver2::law_entry_numbers(pfn);
        law_child_of_any_word(ver2::pde_vram(pfn));
    }
    if pfn < 0x100_0000_0000 {
        ver3::law_entry_numbers(pfn);
        law_child_of_any_word(ver3::pde_vram(pfn));
    }
    ver2::law_entry_numbers(0);
    ver3::law_entry_numbers(0);
    law_child_of_any_word(1);
    law_child_of_any_word(0);
}

/// A walk goes down a chain of tables, `depth` levels from the first on, where the entry of each
/// leads to the next.
proof fn lemma_walk_descends(
    version: MmuVersion,
    indices: Seq<u64>,
    words: Words,
    prepared: spec_fn(u64) -> Option<u64>,
    tables: Seq<u64>,
    depth: int,
)
    requires
        0 <= depth <= version.spec_pde_levels(),
        tables.len() > depth,
        forall|i: int|
            #![trigger indices[i]]
            0 <= i < depth ==> {
                let entry = entry_address(version, tables[i], i, indices[i]);
                let child = child_table(version, words(deciding_address(version, entry, i)));
                child == Some(tables[i + 1]) || (child is None && prepared(entry) == Some(
                    tables[i + 1],
                ))
            },
    ensures
        walked(version, indices, words, prepared, 0, tables[0]) == walked(
            version,
            indices,
            words,
            prepared,
            depth,
            tables[depth],
        ),
    decreases depth,
{
    if depth > 0 {
        lemma_walk_descends(version, indices, words, prepared, tables, depth - 1);
        assert(tables[depth - 1 + 1] == tables[depth]);
        let index = indices[depth - 1];
    }
}

/// An entry leads to the table whose PDE it holds, or else to the one prepared for it.
proof fn lemma_entry_leads_to(
    version: MmuVersion,
    index: u64,
    words: Words,
    prepared: spec_fn(u64) -> Option<u64>,
    table: u64,
    level: int,
    next: u64,
)
    requires
        0 <= level < version.spec_pde_levels(),
        index < 512,
        table <= u64::MAX - 8192,
        next % 4096 == 0,
        next < if version == MmuVersion::V2 {
            0x20_0000_0000int
        } else {
            0x10_0000_0000_0000
        },
        ({
            let dual = level == version.spec_pde_levels() - 1;
            let entry = if dual {
                table + 16 * index
            } else {
                table + 8 * index
            };
            let word = words(
                if dual {
                    (entry + 8) as u64
                } else {
                    entry as u64
                },
            );
            let points_to_next = word == if version == MmuVersion::V2 {
                next / 4096 * 256 + 2
            } else {
                next + 2
            };
            points_to_next || (word / 2 % 4 == 0 && prepared(entry as u64) == Some(next))
        }),
    ensures
        ({
            let entry = entry_address(version, table, level, index);
            let child = child_table(version, words(deciding_address(version, entry, level)));
            child == Some(next) || (child is None && prepared(entry) == Some(next))
        }),
{
    let entry = entry_address(version, table, level, index);
    law_child_of_any_word(words(deciding_address(version, entry, level)));
}

/// A walk follows the page tables. There are four levels of them above the PTEs with MMU v2 and five
/// with MMU v3. Entry `n` of a table is at `8 * n`, but at the last of these levels at `16 * n`, and
/// there the word that counts is the second one. Where that word is the PDE of the next table, or
/// where it is none and the next table has been prepared for the entry, at every level, the walk
/// is complete with the last table.
pub proof fn law_walk_follows_tables(
    version: MmuVersion,
    indices: Seq<u64>,
    words: Words,
    prepared: spec_fn(u64) -> Option<u64>,
    tables: Seq<u64>,
)
    requires
        tables.len() == if version == MmuVersion::V2 {
            5int
        } else {
            6
        },
        indices.len() == tables.len(),
        forall|i: int| 0 <= i < indices.len() ==> #[trigger] indices[i] < 512,
        tables[0] <= u64::MAX - 8192,
        forall|i: int|
            0 < i < tables.len() ==> #[trigger] tables[i] % 4096 == 0 && tables[i] < if version
                == MmuVersion::V2 {
                0x20_0000_0000int
            } else {
                0x10_0000_0000_0000
            },
        forall|i: int|
            #![trigger indices[i]]
            0 <= i < tables.len() - 1 ==> {
                let dual = i == tables.len() - 2;
                let entry = if dual {
                    tables[i] + 16 * indices[i]
                } else {
                    tables[i] + 8 * indices[i]
                };
                let word = words(
                    if dual {
                        (entry + 8) as u64
                    } else {
                        entry as u64
                    },
                );
                let next = tables[i + 1];
                let points_to_next = word == if version == MmuVersion::V2 {
                    next / 4096 * 256 + 2
                } else {
                    next + 2
                };
                points_to_next || (word / 2 % 4 == 0 && prepared(entry as u64) == Some(next))
            },
    ensures
        walked(version, indices, words, prepared, 0, tables[0]) == (WalkPdeResult::Complete {
            pte_table: VramAddress { raw: tables.last() },
        }),
{
    let depth = tables.len() - 1;
    assert forall|i: int| #![trigger indices[i]] 0 <= i < depth implies {
        let entry = entry_address(version, tables[i], i, indices[i]);
        let child = child_table(version, words(deciding_address(version, entry, i)));
        child == Some(tables[i + 1]) || (child is None && prepared(entry) == Some(tables[i + 1]))
    } by {
        lemma_entry_leads_to(version, indices[i], words, prepared, tables[i], i, tables[i + 1]);
    }
    lemma_walk_descends(version, indices, words, prepared, tables, depth);
}

/// A walk stops where a table is missing: where the aperture of the word that counts is 0 and no
/// table has been prepared, it reports the address of the entry and the level that it has reached.
pub proof fn law_walk_reports_missing_table(
    version: MmuVersion,
    indices: Seq<u64>,
    words: Words,
    prepared: spec_fn(u64) -> Option<u64>,
    level: int,
    table: u64,
)
    requires
        0 <= level < if version == MmuVersion::V2 {
            4int
        } else {
            5
        },
        indices[level] < 512,
        table <= u64::MAX - 8192,
        ({
            let dual = level == if version == MmuVersion::V2 {
                3int
            } else {
                4
            };
            if dual {
                &&& words((table + 16 * indices[level] + 8) as u64) / 2 % 4 == 0
                &&& prepared((table + 16 * indices[level]) as u64) is None
            } else {
                &&& words((table + 8 * indices[level]) as u64) / 2 % 4 == 0
                &&& prepared((table + 8 * indices[level]) as u64) is None
            }
        }),
    ensures
        walked(version, indices, words, prepared, level, table) matches WalkPdeResult::Missing {
            install_addr,
            level: missing,
        } && {
            &&& install_addr.raw == table + indices[level] * if (version == MmuVersion::V2 && level
                == 3) || (version == MmuVersion::V3 && level == 4) {
                16int
            } else {
                8
            }
            &&& level == 0 ==> missing == PageTableLevel::Pdb
            &&& level == 1 ==> missing == PageTableLevel::L1
            &&& level == 2 ==> missing == PageTableLevel::L2
            &&& level == 3 ==> missing == PageTableLevel::L3
            &&& level == 4 ==> missing == PageTableLevel::L4
        },
{
    let entry = entry_address(version, table, level, indices[level]);
    law_child_of_any_word(words(deciding_address(version, entry, level)));
}

/// A lookup gives what the PTE says. The PTE is the 64-bit word at eight times the last index in the
/// table that the walk ends with. Where its bit 0 is set the page is mapped, to the frame from bit 8
/// on with MMU v2, 25 bits wide for video memory and 46 bits wide for the rest, and from bit 12 on
/// with MMU v3. Where a table is missing there is no PTE.
pub proof fn law_lookup_reads_pte(
    version: MmuVersion,
    indices: Seq<u64>,
    words: Words,
    pdb: u64,
    pte_table: u64,
)
    requires
        pte_table <= u64::MAX - 4096,
        indices[if version == MmuVersion::V2 {
            4int
        } else {
            5
        }] < 512,
    ensures
        ({
            let outcome = walked(version, indices, words, |entry: u64| None::<u64>, 0, pdb);
            let last = indices[if version == MmuVersion::V2 {
                4int
            } else {
                5
            }];
            let pte_addr = VramAddress { raw: (pte_table + 8 * last) as u64 };
            let word = words(pte_addr.raw);
            let frame = if version == MmuVersion::V3 {
                word / 4096 % 0x100_0000_0000
            } else if word / 2 % 4 == 0 {
                word / 256 % 0x200_0000
            } else {
                word / 256 % 0x4000_0000_0000
            };
            &&& outcome is Missing ==> looked_up(version, indices, words, pdb)
                == WalkResult::PageTableMissing
            &&& outcome == (WalkPdeResult::Complete { pte_table: VramAddress { raw: pte_table } })
                ==> looked_up(version, indices, words, pdb) == if word % 2 == 1 {
                WalkResult::Mapped { pte_addr, pfn: Pfn(frame) }
            } else {
                WalkResult::Unmapped { pte_addr }
            }
        }),
{
    let last = indices[version.spec_pde_levels() as int];
    let word = words((pte_table + 8 * last) as u64);
    ver2::law_pte_of_any_word(word);
    ver3::law_entry_of_any_word(word);
    lemma_valid_bit(word);
}

/// What every word says as the PTE at an address.
pub proof fn law_pte_outcome(version: MmuVersion, pte_addr: u64, word: u64)
    ensures
        ({
            let outcome = pte_outcome(version, pte_addr, word);
            &&& word % 2 == 0 ==> outcome == (WalkResult::Unmapped {
                pte_addr: VramAddress { raw: pte_addr },
            })
            &&& word % 2 == 1 ==> outcome is Mapped
            &&& outcome matches WalkResult::Mapped { pte_addr: at, pfn } ==> {
                &&& at.raw == pte_addr
                &&& version == MmuVersion::V3 ==> pfn.0 == word / 4096 % 0x100_0000_0000
                &&& version == MmuVersion::V2 && word / 2 % 4 == 0 ==> pfn.0 == word / 256
                    % 0x200_0000
                &&& version == MmuVersion::V2 && word / 2 % 4 != 0 ==> pfn.0 == word / 256
                    % 0x4000_0000_0000
            }
        }),
{
    ver2::law_pte_of_any_word(word);
    ver3::law_entry_of_any_word(word);
    lemma_valid_bit(word);
}

/// The lowest bit of a word is set in odd words.
proof fn lemma_valid_bit(word: u64)
    by (bit_vector)
    ensures
        field64(word, 0, 1) == word % 2,
{
}

/// Where the entries are: eight bytes each, but 16 bytes each at the last level above the PTEs, which
/// is the fourth with MMU v2 and the fifth with MMU v3. The word that counts there is the second one.
/// An entry can be read where its last word has an address.
pub proof fn law_entry_places(version: MmuVersion, table: u64, level: int, index: u64)
    requires
        index < 512,
        0 <= level <= 5,
    ensures
        ({
            let dual = (version == MmuVersion::V2 && level == 3) || (version == MmuVersion::V3
                && level == 4);
            let size = if dual {
                16int
            } else {
                8
            };
            let entry = table + size * index;
            &&& entry_fits(version, table, level, index) <==> entry + size <= u64::MAX + 8
            &&& entry <= u64::MAX ==> entry_address(version, table, level, index) == entry
            &&& entry + size <= u64::MAX ==> deciding_address(version, entry as u64, level) == if dual {
                entry + 8
            } else {
                entry
            }
        }),
{
    assert(index * 8 == 8 * index && index * 16 == 16 * index);
}

/// A walk can go on at a table where the last word of its entry there has an address.
pub proof fn law_walk_accepts(walk: PtWalk, table: u64)
    requires
        0 <= walk.spec_level() <= 4,
        walk.spec_indices()[walk.spec_level() + 1] < 512,
    ensures
        ({
            let next = walk.spec_level() + 1;
            let size = if (walk.spec_version() == MmuVersion::V2 && next == 3) || (
            walk.spec_version() == MmuVersion::V3 && next == 4) {
                16int
            } else {
                8
            };
            walk.spec_accepts(table) <==> table + size * walk.spec_indices()[next] + size
                <= u64::MAX + 8
        }),
{
    let next = walk.spec_level() + 1;
    law_entry_places(walk.spec_version(), table, next, walk.spec_indices()[next]);
}

} // verus!
