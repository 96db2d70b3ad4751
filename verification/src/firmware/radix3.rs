//! 3-level radix page table for data the GSP reads.
//!
//! The GSP bootloader reaches the data by walking three levels of [`GSP_PAGE_SIZE`] pages, each
//! entry an 8-byte little-endian DMA address:
//!
//! ```text
//! Level 0:  one page, one entry  ->  the first level 1 page
//! Level 1:  pages of entries     ->  each entry a level 2 page
//! Level 2:  pages of entries     ->  each entry a data page
//! ```

use vstd::prelude::*;

use crate::bytes::{
    le_bytes, le_value, lemma_le_bytes_len, lemma_le_value_of_le_bytes, lemma_pow256_values, push_le,
};
use crate::error::Error;
use crate::gsp::GSP_PAGE_SIZE;

verus! {

/// A region of memory that has been mapped for DMA.
#[derive(Clone, Copy, Debug, PartialEq, Eq, Structural)]
pub struct DmaRegion {
    /// DMA address.
    pub address: u64,
    /// Length in bytes.
    pub len: u64,
}

impl DmaRegion {
    /// The number of pages of the region, the last of which may be partial.
    pub open spec fn pages(self) -> nat {
        ((self.len + GSP_PAGE_SIZE - 1) / GSP_PAGE_SIZE as int) as nat
    }

    /// The region has at least one byte of address space for each of its bytes.
    pub open spec fn wf(self) -> bool {
        self.address + self.len <= u64::MAX + 1
    }

    /// The addresses of the first `count` pages.
    pub open spec fn page_addresses(self, count: nat) -> Seq<u64> {
        Seq::new(count, |i: int| (self.address + i * GSP_PAGE_SIZE) as u64)
    }
}

/// The entries of one page table level over some regions: one per page of every region, in order.
pub open spec fn level_entries(regions: Seq<DmaRegion>) -> Seq<u64>
    decreases regions.len(),
{
    if regions.len() == 0 {
        Seq::empty()
    } else {
        level_entries(regions.drop_last()) + regions.last().page_addresses(regions.last().pages())
    }
}

/// Entries as bytes, each with its lowest byte first.
pub open spec fn entry_bytes(entries: Seq<u64>) -> Seq<u8>
    decreases entries.len(),
{
    if entries.len() == 0 {
        Seq::empty()
    } else {
        entry_bytes(entries.drop_last()) + le_bytes(entries.last() as nat, 8)
    }
}

/// Entries one after the other are their bytes one after the other.
proof fn lemma_entry_bytes_push(entries: Seq<u64>, entry: u64)
    ensures
        entry_bytes(entries.push(entry)) == entry_bytes(entries) + le_bytes(entry as nat, 8),
{
    assert(entries.push(entry).drop_last() =~= entries);
}

/// Builds one page table level over `regions`: one entry per [`GSP_PAGE_SIZE`] page of every
/// DMA-mapped region, in the order the regions appear.
pub fn map_into_lvl(regions: &[DmaRegion]) -> (bytes: Vec<u8>)
    requires
        forall|i: int| 0 <= i < regions@.len() ==> (#[trigger] regions@[i]).wf(),
    ensures
        bytes@ == entry_bytes(level_entries(regions@)),
{
    let total: usize = regions.len();
    let mut bytes: Vec<u8> = Vec::new();
    let mut r: usize = 0;
    while r < total
        invariant
            r <= total,
            total == regions@.len(),
            forall|i: int| 0 <= i < regions@.len() ==> (#[trigger] regions@[i]).wf(),
            bytes@ == entry_bytes(level_entries(regions@.take(r as int))),
        decreases total - r,
    {
        let region = regions[r];
        let ghost base = level_entries(regions@.take(r as int));
        let page: u64 = GSP_PAGE_SIZE as u64;
        let count: u64 = if region.len % page == 0 {
            region.len / page
        } else {
            region.len / page + 1
        };
        proof {
            assert(regions@[r as int].wf());
            assert(base + region.page_addresses(0) =~= base);
        }
        let mut i: u64 = 0;
        while i < count
            invariant
                i <= count,
                page == 4096,
                region.wf(),
                count == region.pages(),
                bytes@ == entry_bytes(base + region.page_addresses(i as nat)),
            decreases count - i,
        {
            let entry: u64 = region.address + i * page;
            push_le(&mut bytes, entry, 8);
            proof {
                lemma_entry_bytes_push(base + region.page_addresses(i as nat), entry);
                assert((base + region.page_addresses(i as nat)).push(entry) =~= base
                    + region.page_addresses((i + 1) as nat));
            }
            i = i + 1;
        }
        r = r + 1;
        proof {
            assert(regions@.take(r as int).drop_last() =~= regions@.take(r - 1));
        }
    }
    assert(regions@.take(total as int) =~= regions@);
    bytes
}

/// Returns the level 0 page: its first entry is the address of the first level 1 region, the others
/// are zero. There has to be such a region.
pub fn level0(level1: &[DmaRegion]) -> (page: Result<Vec<u64>, Error>)
    ensures
        match page {
            Ok(page) => {
                &&& level1@.len() > 0
                &&& page@ == Seq::new(
                    512,
                    |i: int|
                        if i == 0 {
                            level1@[0].address
                        } else {
                            0
                        },
                )
            },
            Err(error) => level1@.len() == 0 && error == Error::EINVAL,
        },
{
    if level1.len() == 0 {
        return Err(Error::EINVAL);
    }
    let mut page: Vec<u64> = Vec::new();
    page.push(level1[0].address);
    let mut i: usize = 1;
    while i < GSP_PAGE_SIZE / 8
        invariant
            1 <= i <= 512,
            level1@.len() > 0,
            page@.len() == i,
            page@[0] == level1@[0].address,
            forall|k: int| 1 <= k < i ==> page@[k] == 0,
        decreases 512 - i,
    {
        page.push(0);
        i = i + 1;
    }
    Ok(page)
}

/// The number of entries before those of a region.
pub open spec fn entries_before(regions: Seq<DmaRegion>, r: int) -> int {
    level_entries(regions.take(r)).len() as int
}

/// Every page of every region has its entry, in order: that of the `p`-th page of the `r`-th region
/// comes `p` after the entries of the regions before it, and is the address of the page.
pub proof fn law_level_entries(regions: Seq<DmaRegion>, r: int, p: int)
    requires
        0 <= r < regions.len(),
        0 <= p < regions[r].pages(),
    ensures
        entries_before(regions, r) + p < level_entries(regions).len(),
        level_entries(regions)[entries_before(regions, r) + p] == (regions[r].address + p
            * GSP_PAGE_SIZE) as u64,
    decreases regions.len(),
{
    if r == regions.len() - 1 {
        assert(regions.take(r) =~= regions.drop_last());
    } else {
        law_level_entries(regions.drop_last(), r, p);
        assert(regions.drop_last().take(r) =~= regions.take(r));
    }
}

/// There is one entry of eight bytes for each page, and no other.
pub proof fn law_level_size(entries: Seq<u64>)
    ensures
        entry_bytes(entries).len() == 8 * entries.len(),
    decreases entries.len(),
{
    if entries.len() > 0 {
        law_level_size(entries.drop_last());
        lemma_le_bytes_len(entries.last() as nat, 8);
    }
}

/// The number of bytes that some regions hold.
pub open spec fn mapped_len(regions: Seq<DmaRegion>) -> int
    decreases regions.len(),
{
    if regions.len() == 0 {
        0
    } else {
        mapped_len(regions.drop_last()) + regions.last().len
    }
}

/// The DMA address of the byte at `offset` of what some regions hold one after the other.
pub open spec fn address_of(regions: Seq<DmaRegion>, offset: int) -> int
    decreases regions.len(),
{
    if regions.len() == 0 {
        0
    } else {
        let before = mapped_len(regions.drop_last());
        if offset >= before {
            regions.last().address + (offset - before)
        } else {
            address_of(regions.drop_last(), offset)
        }
    }
}

/// Whether every region but the last one is made of whole pages, and each of them has addresses.
pub open spec fn paged(regions: Seq<DmaRegion>) -> bool {
    &&& forall|i: int| 0 <= i < regions.len() ==> (#[trigger] regions[i]).wf()
    &&& forall|i: int|
        0 <= i < regions.len() - 1 ==> (#[trigger] regions[i]).len % (GSP_PAGE_SIZE as u64) == 0
}

/// Regions of whole pages have an entry for each page of what they hold.
proof fn lemma_whole_pages(regions: Seq<DmaRegion>)
    requires
        forall|i: int|
            0 <= i < regions.len() ==> (#[trigger] regions[i]).len % (GSP_PAGE_SIZE as u64) == 0,
    ensures
        mapped_len(regions) == GSP_PAGE_SIZE * level_entries(regions).len(),
    decreases regions.len(),
{
    if regions.len() > 0 {
        lemma_whole_pages(regions.drop_last());
        assert(regions[regions.len() - 1].len % (GSP_PAGE_SIZE as u64) == 0);
    }
}

/// The entry of a page is where the bytes of the page are: the byte at `offset` is as far into the
/// page that its entry points to as it is into its page.
pub proof fn law_entry_points_to_page(regions: Seq<DmaRegion>, offset: int)
    requires
        paged(regions),
        0 <= offset < mapped_len(regions),
    ensures
        (offset / GSP_PAGE_SIZE as int) < level_entries(regions).len(),
        address_of(regions, offset) == level_entries(regions)[offset / GSP_PAGE_SIZE as int] + offset
            % GSP_PAGE_SIZE as int,
    decreases regions.len(),
{
    let front = regions.drop_last();
    let last = regions.last();
    let before = mapped_len(front);
    let count = level_entries(front).len();
    assert forall|i: int| 0 <= i < front.len() implies (#[trigger] front[i]).len % (
    GSP_PAGE_SIZE as u64) == 0 by {
        assert(regions[i].len % (GSP_PAGE_SIZE as u64) == 0);
    }
    lemma_whole_pages(front);
    if offset >= before {
        let p = offset / GSP_PAGE_SIZE as int - count;
        assert(0 <= p < last.pages());
        assert(regions[regions.len() - 1].wf());
        assert(level_entries(regions)[count + p] == last.page_addresses(last.pages())[p]);
    } else {
        assert forall|i: int| 0 <= i < front.len() implies (#[trigger] front[i]).wf() by {
            assert(regions[i].wf());
        }
        law_entry_points_to_page(front, offset);
    }
}

/// Each entry is where its eight bytes are.
proof fn lemma_entry_at(entries: Seq<u64>, k: int)
    requires
        0 <= k < entries.len(),
    ensures
        entry_bytes(entries).len() == 8 * entries.len(),
        entry_bytes(entries).subrange(8 * k, 8 * k + 8) == le_bytes(entries[k] as nat, 8),
    decreases entries.len(),
{
    let front = entries.drop_last();
    law_level_size(entries);
    law_level_size(front);
    lemma_le_bytes_len(entries.last() as nat, 8);
    if k == entries.len() - 1 {
        assert(entry_bytes(entries).subrange(8 * k, 8 * k + 8) =~= le_bytes(
            entries[k] as nat,
            8,
        ));
    } else {
        lemma_entry_at(front, k);
        assert(entry_bytes(entries).subrange(8 * k, 8 * k + 8) =~= entry_bytes(front).subrange(
            8 * k,
            8 * k + 8,
        ));
    }
}

/// What a device reads at each DMA address.
pub type Memory = spec_fn(int) -> u8;

/// Whether the memory that some regions make up holds the given bytes.
pub open spec fn holds(memory: Memory, regions: Seq<DmaRegion>, bytes: Seq<u8>) -> bool {
    &&& mapped_len(regions) == bytes.len()
    &&& forall|offset: int|
        0 <= offset < bytes.len() ==> memory(#[trigger] address_of(regions, offset))
            == bytes[offset]
}

/// The entry at an address: eight bytes, the lowest first.
pub open spec fn entry_at(memory: Memory, address: int) -> nat {
    le_value(Seq::new(8, |i: int| memory(address + i)))
}

/// The address of data page `k`, as it is found by walking the table from the level 1 page that the
/// entry of the level 0 page points to.
pub open spec fn walked(memory: Memory, level1_page: u64, k: int) -> nat {
    let level2_page = entry_at(memory, level1_page + 8 * (k / 512));
    entry_at(memory, level2_page as int + 8 * (k % 512))
}

/// Where memory holds a level of entries, entry `k` is found in page `k / 512` of that level.
proof fn lemma_entry_in_page(memory: Memory, regions: Seq<DmaRegion>, entries: Seq<u64>, k: int)
    requires
        paged(regions),
        holds(memory, regions, entry_bytes(entries)),
        0 <= k < entries.len(),
    ensures
        k / 512 < level_entries(regions).len(),
        address_of(regions, 8 * k) == level_entries(regions)[k / 512] + 8 * (k % 512),
        entry_at(memory, level_entries(regions)[k / 512] + 8 * (k % 512)) == entries[k],
{
    let bytes = entry_bytes(entries);
    let address = level_entries(regions)[k / 512] + 8 * (k % 512);
    lemma_entry_at(entries, k);
    law_entry_points_to_page(regions, 8 * k);
    let read = Seq::new(8, |i: int| memory(address + i));
    assert forall|i: int| 0 <= i < 8 implies read[i] == bytes.subrange(8 * k, 8 * k + 8)[i] by {
        law_entry_points_to_page(regions, 8 * k + i);
        assert(address_of(regions, 8 * k + i) == address + i);
        assert(memory(address_of(regions, 8 * k + i)) == bytes[8 * k + i]);
    }
    assert(read =~= le_bytes(entries[k] as nat, 8));
    lemma_pow256_values();
    lemma_le_value_of_le_bytes(entries[k] as nat, 8);
}

/// The data is reached by walking the three levels. Entry `k` of level 2 is data page `k` and stands in
/// page `k / 512` of level 2. Entry `k / 512` of level 1 is that page, and stands in the first page of
/// level 1, which the entry of the level 0 page points to. So a walk for page `k` gives data page `k`.
///
/// Level 1 is one page long, so it reaches 512 pages of level 2 and 512 * 512 pages of data.
pub proof fn law_walk_reaches_data(
    memory: Memory,
    data: Seq<DmaRegion>,
    level2: Seq<DmaRegion>,
    level1: Seq<DmaRegion>,
    k: int,
)
    requires
        paged(level2),
        paged(level1),
        holds(memory, level2, entry_bytes(level_entries(data))),
        holds(memory, level1, entry_bytes(level_entries(level2))),
        level1.len() > 0,
        level1[0].len > 0,
        0 <= k < level_entries(data).len(),
        k < 512 * 512,
    ensures
        k / 512 < level_entries(level2).len(),
        address_of(level2, 8 * k) == level_entries(level2)[k / 512] + 8 * (k % 512),
        address_of(level1, 8 * (k / 512)) == level1[0].address + 8 * (k / 512),
        walked(memory, level1[0].address, k) == level_entries(data)[k],
{
    lemma_entry_in_page(memory, level2, level_entries(data), k);
    lemma_entry_in_page(memory, level1, level_entries(level2), k / 512);
    assert(level1.take(0) =~= Seq::<DmaRegion>::empty());
    law_level_entries(level1, 0, 0);
    assert(level_entries(level1)[0] == level1[0].address);
}

/// A region has as many pages of 4096 bytes as it needs, and no more. The address of each is 4096
/// above that of the one before it.
pub proof fn law_region_pages(region: DmaRegion, count: nat, i: int)
    requires
        region.wf(),
        0 <= i < count <= region.pages(),
    ensures
        region.pages() * 4096 >= region.len,
        (region.pages() - 1) * 4096 < region.len,
        region.page_addresses(count).len() == count,
        region.page_addresses(count)[i] == region.address + i * 4096,
        region.address + region.len <= 0x1_0000_0000_0000_0000,
{
}

/// The entries of some regions are as many as their pages, those of the last region last.
pub proof fn law_level_length(regions: Seq<DmaRegion>, last: DmaRegion)
    ensures
        level_entries(Seq::empty()).len() == 0,
        level_entries(regions.push(last)).len() == level_entries(regions).len() + (last.len + 4095)
            / 4096,
{
    assert(regions.push(last).drop_last() =~= regions);
}

/// Entry `i` is the eight bytes from `8 * i` on, lowest first.
pub proof fn law_entry_bytes(entries: Seq<u64>, i: int)
    requires
        0 <= i < entries.len(),
    ensures
        entry_bytes(entries).len() == 8 * entries.len(),
        le_value(entry_bytes(entries).subrange(8 * i, 8 * i + 8)) == entries[i],
    decreases entries.len(),
{
    let before = entries.drop_last();
    let bytes = entry_bytes(entries);
    law_level_size(entries);
    law_level_size(before);
    lemma_le_bytes_len(entries.last() as nat, 8);
    if i < before.len() {
        law_entry_bytes(before, i);
        assert(bytes.subrange(8 * i, 8 * i + 8) =~= entry_bytes(before).subrange(8 * i, 8 * i + 8));
    } else {
        crate::bytes::lemma_pow256_values();
        assert(bytes.subrange(8 * i, 8 * i + 8) =~= le_bytes(entries[i] as nat, 8));
        crate::bytes::lemma_number_at(bytes, 8 * i, entries[i] as nat, 8);
    }
}

} // verus!
