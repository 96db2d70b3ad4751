//! BAR1 user interface for CPU access to GPU virtual memory. Used for USERD for GPU work submission,
//! and applications to access GPU buffers via mmap().

use vstd::prelude::*;

use crate::error::Error;
use crate::mm::addr::{Pfn, Vfn, VirtualAddress};
use crate::mm::vram::VramRegion;
use crate::mm::PAGE_SIZE;
use crate::num::{is_multiple_of, multiple_of};

verus! {

/// A range of virtual pages that has been mapped.
#[derive(Debug, Clone, Copy, PartialEq, Eq, Structural)]
pub struct MappedRange {
    pub vfn_start: Vfn,
    pub num_pages: usize,
}

/// Checks the physical pages that are to be mapped to a contiguous BAR1 virtual range.
pub fn validate_pfns(pfns: &[Pfn]) -> (result: Result<(), Error>)
    ensures
        result == if pfns@.len() == 0 {
            Err::<(), Error>(Error::EINVAL)
        } else {
            Ok(())
        },
{
    if pfns.len() == 0 {
        return Err(Error::EINVAL);
    }
    Ok(())
}

/// Access object for a mapped BAR1 region.
#[derive(Debug, Clone, Copy, PartialEq, Eq, Structural)]
pub struct BarUserAccess {
    /// [`BarUserAccess::release`] takes this.
    pub mapped: Option<MappedRange>,
}

impl BarUserAccess {
    /// Takes the mapping that is to be torn down.
    pub fn release(&mut self) -> (mapped: Result<MappedRange, Error>)
        ensures
            final(self).mapped is None,
            mapped == match old(self).mapped {
                Some(mapped) => Ok::<MappedRange, Error>(mapped),
                None => Err(Error::EINVAL),
            },
    {
        let mapped = self.mapped;
        self.mapped = None;
        match mapped {
            Some(mapped) => Ok(mapped),
            None => Err(Error::EINVAL),
        }
    }
}

impl MappedRange {
    /// Get the base virtual address of this mapping.
    pub fn base(&self) -> (base: VirtualAddress)
        ensures
            base.raw == (self.vfn_start.0 % 0x10_0000_0000_0000) * 4096,
    {
        VirtualAddress::from(self.vfn_start)
    }

    /// Get the total size of the mapped region in bytes.
    pub fn size(&self) -> (size: usize)
        requires
            self.num_pages * 4096 <= usize::MAX,
        ensures
            size == self.num_pages * 4096,
    {
        self.num_pages * PAGE_SIZE
    }

    /// Translate an offset within this mapping to a BAR1 aperture offset.
    pub fn bar_offset(&self, offset: usize) -> (result: Result<usize, Error>)
        requires
            self.num_pages * 4096 <= usize::MAX,
        ensures
            result == if offset >= self.num_pages * 4096 {
                Err::<usize, Error>(Error::EINVAL)
            } else if self.vfn_start.0 * 4096 + offset > usize::MAX {
                Err(Error::EOVERFLOW)
            } else {
                Ok((self.vfn_start.0 * 4096 + offset) as usize)
            },
    {
        if offset >= self.size() {
            return Err(Error::EINVAL);
        }
        if self.vfn_start.0 > usize::MAX as u64 {
            return Err(Error::EOVERFLOW);
        }
        match (self.vfn_start.0 as usize).checked_mul(PAGE_SIZE) {
            Some(base) => match base.checked_add(offset) {
                Some(bar_offset) => Ok(bar_offset),
                None => Err(Error::EOVERFLOW),
            },
            None => Err(Error::EOVERFLOW),
        }
    }
}

/// What mapping a VRAM region through BAR1 takes.
///
/// The region may start or end between page boundaries; the containing pages are mapped, while all
/// CPU accessors remain bounded to the requested byte range.
pub struct Bar1Plan {
    /// The pages to map, in order.
    pub pfns: Vec<Pfn>,
    /// Where the region starts in the first page.
    pub page_bias: usize,
    /// The size of the region.
    pub logical_size: usize,
}

/// The number of the first page of a region.
pub open spec fn first_page(region: VramRegion) -> int {
    region.address as int / 4096
}

/// The number of the page after the last one of a region.
pub open spec fn page_limit(region: VramRegion) -> int {
    (region.address + region.size + 4095) / 4096
}

/// Whether the end of a region, rounded up to a page, is an address.
pub open spec fn mappable_end(region: VramRegion) -> bool {
    region.address + region.size + 4095 <= u64::MAX
}

impl Bar1Plan {
    /// Plans the mapping of a VRAM region.
    pub fn new(region: VramRegion) -> (plan: Result<Self, Error>)
        ensures
            match plan {
                Ok(plan) => {
                    &&& mappable_end(region)
                    &&& first_page(region) < page_limit(region)
                    &&& plan.pfns@ == Seq::new(
                        (page_limit(region) - first_page(region)) as nat,
                        |i: int| Pfn((first_page(region) + i) as u64),
                    )
                    &&& plan.page_bias == region.address % 4096
                    &&& plan.logical_size == region.size
                },
                Err(Error::EINVAL) => mappable_end(region) && first_page(region) >= page_limit(
                    region,
                ),
                Err(error) => error == Error::EOVERFLOW && (!mappable_end(region) || page_limit(
                    region,
                ) - first_page(region) > usize::MAX || region.size > usize::MAX),
            },
    {
        let region_end: u64 = match region.address.checked_add(region.size) {
            Some(end) => end,
            None => {
                return Err(Error::EOVERFLOW);
            },
        };
        let first: u64 = region.address / 4096;
        let limit: u64 = match region_end.checked_add(4095) {
            Some(rounded) => rounded / 4096,
            None => {
                return Err(Error::EOVERFLOW);
            },
        };
        let pages: u64 = limit - first;
        if pages > usize::MAX as u64 {
            return Err(Error::EOVERFLOW);
        }
        if pages == 0 {
            return Err(Error::EINVAL);
        }
        if region.size > usize::MAX as u64 {
            return Err(Error::EOVERFLOW);
        }
        let mut pfns: Vec<Pfn> = Vec::new();
        let mut page: u64 = 0;
        while page < pages
            invariant
                page <= pages,
                pages == limit - first,
                first == first_page(region),
                pfns@ == Seq::new(page as nat, |i: int| Pfn((first_page(region) + i) as u64)),
            decreases pages - page,
        {
            pfns.push(Pfn(first + page));
            page = page + 1;
            assert(pfns@ =~= Seq::new(page as nat, |i: int| Pfn((first_page(region) + i) as u64)));
        }
        Ok(
            Bar1Plan {
                pfns,
                page_bias: (region.address % 4096) as usize,
                logical_size: region.size as usize,
            },
        )
    }
}

/// An owned BAR1 mapping of a region of VRAM.
#[derive(Debug, Clone, Copy, PartialEq, Eq, Structural)]
pub struct Bar1Map {
    pub mapped: MappedRange,
    pub region: VramRegion,
    pub page_bias: usize,
    pub logical_size: usize,
    /// The size of the BAR1 aperture.
    pub bar1_size: usize,
}

/// Where an access of `width` bytes at an offset in a mapping goes in the BAR1 aperture.
pub open spec fn bar1_offset(map: Bar1Map, offset: int, width: int) -> Result<usize, Error> {
    let base = map.mapped.vfn_start.0 * 4096 + map.page_bias;
    if offset + width > usize::MAX {
        Err(Error::EOVERFLOW)
    } else if offset + width > map.logical_size {
        Err(Error::EINVAL)
    } else if base + offset + width > usize::MAX {
        Err(Error::EOVERFLOW)
    } else if base + offset + width > map.bar1_size || !multiple_of(base + offset, width) {
        Err(Error::EINVAL)
    } else {
        Ok((base + offset) as usize)
    }
}

impl Bar1Map {
    /// Return the mapped physical VRAM region.
    pub fn region(&self) -> (region: &VramRegion)
        ensures
            *region == self.region,
    {
        &self.region
    }

    /// Return the logical GPU virtual address visible through BAR1.
    pub fn gpu_va_addr(&self) -> (address: Result<u64, Error>)
        ensures
            address == if self.mapped.vfn_start.0 * 4096 + self.page_bias > u64::MAX {
                Err::<u64, Error>(Error::EOVERFLOW)
            } else {
                Ok((self.mapped.vfn_start.0 * 4096 + self.page_bias) as u64)
            },
    {
        match self.mapped.vfn_start.0.checked_mul(4096) {
            Some(base) => match base.checked_add(self.page_bias as u64) {
                Some(address) => Ok(address),
                None => Err(Error::EOVERFLOW),
            },
            None => Err(Error::EOVERFLOW),
        }
    }

    /// Return the requested logical mapping size.
    pub fn size(&self) -> (size: usize)
        ensures
            size == self.logical_size,
    {
        self.logical_size
    }

    /// Returns where an access of `access_width` bytes at `offset` goes in the BAR1 aperture.
    pub fn bar_offset(&self, offset: usize, access_width: usize) -> (result: Result<usize, Error>)
        ensures
            result == bar1_offset(*self, offset as int, access_width as int),
    {
        let access_end: usize = match offset.checked_add(access_width) {
            Some(end) => end,
            None => {
                return Err(Error::EOVERFLOW);
            },
        };
        if access_end > self.logical_size {
            return Err(Error::EINVAL);
        }
        if self.mapped.vfn_start.0 > usize::MAX as u64 {
            return Err(Error::EOVERFLOW);
        }
        let base: usize = match (self.mapped.vfn_start.0 as usize).checked_mul(PAGE_SIZE) {
            Some(base) => base,
            None => {
                return Err(Error::EOVERFLOW);
            },
        };
        let logical_base: usize = match base.checked_add(self.page_bias) {
            Some(base) => base,
            None => {
                return Err(Error::EOVERFLOW);
            },
        };
        let bar_offset: usize = match logical_base.checked_add(offset) {
            Some(bar_offset) => bar_offset,
            None => {
                return Err(Error::EOVERFLOW);
            },
        };
        let bar_end: usize = match bar_offset.checked_add(access_width) {
            Some(bar_end) => bar_end,
            None => {
                return Err(Error::EOVERFLOW);
            },
        };
        if bar_end > self.bar1_size || !is_multiple_of(
            bar_offset as u64,
            access_width as u64,
        ) {
            return Err(Error::EINVAL);
        }
        Ok(bar_offset)
    }
}

/// An access that is let through stays inside the requested region, inside the mapped pages and
/// inside the aperture, and is aligned.
pub proof fn law_access_is_bounded(map: Bar1Map, offset: int, width: int)
    requires
        offset >= 0,
        width > 0,
        map.page_bias + map.logical_size <= map.mapped.num_pages * 4096,
    ensures
        bar1_offset(map, offset, width) matches Ok(bar) ==> {
            &&& offset + width <= map.logical_size
            &&& map.mapped.vfn_start.0 * 4096 <= bar
            &&& bar + width <= (map.mapped.vfn_start.0 + map.mapped.num_pages) * 4096
            &&& bar + width <= map.bar1_size
            &&& bar as int % width == 0
        },
{
}

/// The planned pages hold all of the region.
pub proof fn law_plan_covers_region(region: VramRegion)
    requires
        mappable_end(region),
    ensures
        first_page(region) * 4096 + region.address % 4096 == region.address,
        region.address % 4096 + region.size <= (page_limit(region) - first_page(region)) * 4096,
{
}

/// No more pages are planned than the region touches: it starts in the first one and, where it is not
/// empty, ends in the last one.
pub proof fn law_plan_is_tight(region: VramRegion)
    requires
        mappable_end(region),
        region.size > 0,
    ensures
        first_page(region) * 4096 <= region.address < (first_page(region) + 1) * 4096,
        (page_limit(region) - 1) * 4096 < region.address + region.size <= page_limit(region) * 4096,
{
}

/// The end of a region can be rounded up to a page where that stays an address.
pub proof fn law_mappable_end(region: VramRegion)
    ensures
        mappable_end(region) <==> region.address + region.size < 0x1_0000_0000_0000_0000 - 4095,
{
}

/// An access goes to the mapped pages, past the place of the region in the first one, at its offset.
/// It is let through where it stays in the region and in the aperture and is aligned.
pub proof fn law_access_place(map: Bar1Map, offset: usize, width: usize)
    requires
        width > 0,
        map.mapped.vfn_start.0 * 4096 + map.page_bias + offset + width <= usize::MAX,
    ensures
        ({
            let place = map.mapped.vfn_start.0 * 4096 + map.page_bias + offset;
            bar1_offset(map, offset as int, width as int) == if offset + width <= map.logical_size
                && place + width <= map.bar1_size && place % width as int == 0 {
                Ok::<usize, Error>(place as usize)
            } else {
                Err(Error::EINVAL)
            }
        }),
{
}

/// An access whose place or end is no number that the CPU can count to is an overflow. One that leaves the
/// region is refused before that.
pub proof fn law_access_overflow(map: Bar1Map, offset: usize, width: usize)
    ensures
        ({
            let place = map.mapped.vfn_start.0 * 4096 + map.page_bias + offset;
            let result = bar1_offset(map, offset as int, width as int);
            &&& offset + width > usize::MAX ==> result == Err::<usize, Error>(Error::EOVERFLOW)
            &&& map.logical_size < offset + width <= usize::MAX ==> result == Err::<usize, Error>(
                Error::EINVAL,
            )
            &&& offset + width <= map.logical_size && place + width > usize::MAX ==> result == Err::<
                usize,
                Error,
            >(Error::EOVERFLOW)
        }),
{
}

} // verus!
