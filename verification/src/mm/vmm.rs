//! Virtual address ranges of a GPU address space.

use core::ops::Range;

use vstd::prelude::*;

use crate::error::Error;
use crate::mm::addr::{Pfn, VramAddress};
use crate::mm::pagetable::walk::WalkResult;
use crate::mm::pagetable::MmuVersion;

verus! {

/// A range of virtual frame numbers to allocate.
#[derive(Debug, Clone, Copy, PartialEq, Eq, Structural)]
pub enum VfnRequest {
    /// Exactly the frames from `start` up to `end`.
    Exact { start: u64, end: u64 },
    /// Any `num_pages` consecutive frames below `limit`.
    Anywhere { num_pages: usize, limit: u64 },
}

/// Virtual Memory Manager for a GPU address space.
///
/// Each [`Vmm`] instance manages a single address space identified by its Page Directory Base
/// (`PDB`) address. The [`Vmm`] is used for Channel, BAR1 and BAR2 mappings.
#[derive(Debug, Clone, Copy, PartialEq, Eq, Structural)]
pub struct Vmm {
    /// Page Directory Base address for this address space.
    pub pdb_addr: VramAddress,
    /// MMU version used for page table layout.
    pub mmu_version: MmuVersion,
    /// Total number of pages in the virtual address space.
    pub va_pages: u64,
}

impl Vmm {
    /// Create a new [`Vmm`] for the given Page Directory Base address.
    ///
    /// The [`Vmm`] will manage a virtual address space of `va_size` bytes.
    pub fn new(pdb_addr: VramAddress, mmu_version: MmuVersion, va_size: u64) -> (vmm: Self)
        ensures
            vmm.pdb_addr == pdb_addr,
            vmm.mmu_version == mmu_version,
            vmm.va_pages == va_size / 4096,
    {
        Vmm { pdb_addr, mmu_version, va_pages: va_size / 4096 }
    }

    /// Returns what to allocate for `num_pages` pages.
    ///
    /// `va_range` is `None` to allocate anywhere, and constrains the allocation to that very range
    /// otherwise, which has to have the size of the pages.
    pub fn alloc_vfn_range(&self, num_pages: usize, va_range: Option<Range<u64>>) -> (request: Result<
        VfnRequest,
        Error,
    >)
        ensures
            request == match va_range {
                None => Ok::<VfnRequest, Error>(
                    VfnRequest::Anywhere { num_pages, limit: self.va_pages },
                ),
                Some(range) => if num_pages * 4096 > u64::MAX || range.end < range.start {
                    Err(Error::EOVERFLOW)
                } else if range.end - range.start != num_pages * 4096 {
                    Err(Error::EINVAL)
                } else {
                    Ok(VfnRequest::Exact { start: range.start / 4096, end: range.end / 4096 })
                },
            },
    {
        match va_range {
            Some(range) => {
                let size: u64 = match (num_pages as u64).checked_mul(4096) {
                    Some(size) => size,
                    None => {
                        return Err(Error::EOVERFLOW);
                    },
                };
                if range.end < range.start {
                    return Err(Error::EOVERFLOW);
                }
                if range.end - range.start != size {
                    return Err(Error::EINVAL);
                }
                Ok(VfnRequest::Exact { start: range.start / 4096, end: range.end / 4096 })
            },
            None => Ok(VfnRequest::Anywhere { num_pages, limit: self.va_pages }),
        }
    }

    /// Returns the [`Pfn`] that a lookup found for a page, if one is mapped.
    pub fn read_mapping(&self, walked: WalkResult) -> (pfn: Option<Pfn>)
        ensures
            pfn == match walked {
                WalkResult::Mapped { pte_addr: _, pfn } => Some(pfn),
                _ => None,
            },
    {
        match walked {
            WalkResult::Mapped { pte_addr: _, pfn } => Some(pfn),
            WalkResult::Unmapped { pte_addr: _ } => None,
            WalkResult::PageTableMissing => None,
        }
    }
}

/// An exact request covers as many frames as pages were asked for.
pub proof fn law_exact_request_size(range: Range<u64>, num_pages: int)
    requires
        num_pages >= 0,
        range.end - range.start == num_pages * 4096,
    ensures
        range.end as int / 4096 - range.start as int / 4096 == num_pages,
{
}

} // verus!
