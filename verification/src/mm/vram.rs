//! Physically contiguous VRAM allocations and the regions inside them.

use core::ops::Range;

use vstd::prelude::*;
use vstd::set_lib::{lemma_int_range, set_int_range};

use crate::error::Error;
use crate::mm::{apart, contains, overlap, range_contains, ranges_overlap};
use crate::num::{is_multiple_of, is_power_of_two, max_u64, multiple_of, power_of_two};

verus! {

/// A physically contiguous VRAM allocation.
#[derive(Clone, Copy, Debug, PartialEq, Eq, Structural)]
pub struct VramBlock {
    pub address: u64,
    pub size: u64,
}

/// A block of memory that an allocation is made of.
#[derive(Clone, Copy, Debug, PartialEq, Eq, Structural)]
pub struct AllocatedBlock {
    pub offset: u64,
    pub size: u64,
}

/// How many bytes the blocks cover.
pub open spec fn covered(blocks: Seq<AllocatedBlock>) -> int
    decreases blocks.len(),
{
    if blocks.len() == 0 {
        0
    } else {
        covered(blocks.drop_last()) + blocks.last().size
    }
}

/// The lowest address of the blocks.
pub open spec fn lowest(blocks: Seq<AllocatedBlock>) -> int
    decreases blocks.len(),
{
    let last = blocks.last();
    if blocks.len() <= 1 || last.offset <= lowest(blocks.drop_last()) {
        last.offset as int
    } else {
        lowest(blocks.drop_last())
    }
}

/// The address after the highest one of the blocks.
pub open spec fn highest(blocks: Seq<AllocatedBlock>) -> int
    decreases blocks.len(),
{
    let last = blocks.last();
    if blocks.len() <= 1 || last.offset + last.size >= highest(blocks.drop_last()) {
        last.offset + last.size
    } else {
        highest(blocks.drop_last())
    }
}

/// Whether the end of each block and the number of bytes that they cover are `u64`s.
pub open spec fn addressable(blocks: Seq<AllocatedBlock>) -> bool {
    &&& forall|i: int|
        0 <= i < blocks.len() ==> (#[trigger] blocks[i]).offset + blocks[i].size <= u64::MAX
    &&& covered(blocks) <= u64::MAX
}

/// Whether the blocks make one contiguous allocation of `size` bytes at a multiple of `align`, and
/// at the address that is expected, if one is.
pub open spec fn contiguous(
    blocks: Seq<AllocatedBlock>,
    size: u64,
    align: u64,
    expected_address: Option<u64>,
) -> bool {
    &&& expected_address matches Some(expected) ==> lowest(blocks) == expected
    &&& covered(blocks) == size
    &&& highest(blocks) - lowest(blocks) == size
    &&& multiple_of(lowest(blocks), align as int)
}

/// The first blocks cover no more than all of them.
proof fn lemma_covered_prefix(blocks: Seq<AllocatedBlock>, n: int)
    requires
        0 <= n <= blocks.len(),
    ensures
        0 <= covered(blocks.take(n)) <= covered(blocks),
    decreases blocks.len(),
{
    if n == blocks.len() {
        assert(blocks.take(n) =~= blocks);
        if n > 0 {
            lemma_covered_prefix(blocks.drop_last(), n - 1);
        }
    } else {
        lemma_covered_prefix(blocks.drop_last(), n);
        assert(blocks.drop_last().take(n) =~= blocks.take(n));
    }
}

/// No block starts below the lowest address or ends above the highest.
pub proof fn lemma_between(blocks: Seq<AllocatedBlock>, i: int)
    requires
        0 <= i < blocks.len(),
    ensures
        lowest(blocks) <= blocks[i].offset,
        blocks[i].offset + blocks[i].size <= highest(blocks),
    decreases blocks.len(),
{
    if i < blocks.len() - 1 {
        lemma_between(blocks.drop_last(), i);
    }
}

impl VramBlock {
    /// Returns the physical addresses of the allocation.
    pub fn range(&self) -> (range: Result<Range<u64>, Error>)
        ensures
            match range {
                Ok(range) => range.start == self.address && range.end == self.address + self.size,
                Err(error) => self.address + self.size > u64::MAX && error == Error::EOVERFLOW,
            },
    {
        match self.address.checked_add(self.size) {
            Some(end) => Ok(Range { start: self.address, end }),
            None => Err(Error::EOVERFLOW),
        }
    }

    /// Checks a request for an aligned, physically contiguous block. Returns the alignment to
    /// search with, which is that of a page at least.
    pub fn validate_aligned(size: u64, align: u64) -> (result: Result<u64, Error>)
        ensures
            ({
                let raised = if align >= 4096 {
                    align
                } else {
                    4096
                };
                match result {
                    Ok(aligned) => size > 0 && size % 4096 == 0 && raised <= usize::MAX
                        && power_of_two(raised as nat) && aligned == raised,
                    Err(Error::EOVERFLOW) => size > 0 && size % 4096 == 0 && raised > usize::MAX,
                    Err(error) => error == Error::EINVAL && (size == 0 || size % 4096 != 0
                        || raised <= usize::MAX && !power_of_two(raised as nat)),
                }
            }),
    {
        if size == 0 || size % 4096 != 0 {
            return Err(Error::EINVAL);
        }
        let align: u64 = max_u64(align, 4096);
        if align > usize::MAX as u64 {
            return Err(Error::EOVERFLOW);
        }
        if !is_power_of_two(align) {
            return Err(Error::EINVAL);
        }
        Ok(align)
    }

    /// Makes an allocation of the blocks that a buddy allocator gave. Fails if they are not the
    /// contiguous range that was asked for.
    pub fn from_allocation(
        blocks: &[AllocatedBlock],
        size: u64,
        align: u64,
        expected_address: Option<u64>,
    ) -> (block: Result<VramBlock, Error>)
        ensures
            block == if !addressable(blocks@) {
                Err::<VramBlock, Error>(Error::EOVERFLOW)
            } else if blocks@.len() == 0 {
                Err(Error::ENOMEM)
            } else if contiguous(blocks@, size, align, expected_address) {
                Ok((VramBlock { address: lowest(blocks@) as u64, size }))
            } else {
                Err(Error::EIO)
            },
    {
        let total: usize = blocks.len();
        let mut bounds: Option<(u64, u64)> = None;
        let mut sum: u64 = 0;
        let mut i: usize = 0;
        while i < total
            invariant
                i <= total,
                total == blocks@.len(),
                sum == covered(blocks@.take(i as int)),
                forall|j: int|
                    0 <= j < i ==> (#[trigger] blocks@[j]).offset + blocks@[j].size <= u64::MAX,
                i == 0 <==> bounds is None,
                bounds matches Some((low, high)) ==> low == lowest(blocks@.take(i as int)) && high
                    == highest(blocks@.take(i as int)),
            decreases total - i,
        {
            let block = blocks[i];
            let ghost next = blocks@.take(i + 1);
            proof {
                assert(next.drop_last() =~= blocks@.take(i as int));
                assert(next.last() == block);
                lemma_covered_prefix(blocks@, i + 1);
            }
            let end: u64 = match block.offset.checked_add(block.size) {
                Some(end) => end,
                None => {
                    assert(blocks@[i as int].offset + blocks@[i as int].size > u64::MAX);
                    return Err(Error::EOVERFLOW);
                },
            };
            bounds = match bounds {
                None => Some((block.offset, end)),
                Some((low, high)) => Some(
                    (
                        if block.offset <= low {
                            block.offset
                        } else {
                            low
                        },
                        if end >= high {
                            end
                        } else {
                            high
                        },
                    ),
                ),
            };
            sum = match sum.checked_add(block.size) {
                Some(sum) => sum,
                None => {
                    return Err(Error::EOVERFLOW);
                },
            };
            i = i + 1;
        }
        assert(blocks@.take(i as int) =~= blocks@);
        match bounds {
            None => Err(Error::ENOMEM),
            Some((low, high)) => {
                proof {
                    lemma_between(blocks@, 0);
                }
                let expected = match expected_address {
                    Some(expected) => low == expected,
                    None => true,
                };
                if !expected || sum != size || high - low != size || !is_multiple_of(low, align) {
                    Err(Error::EIO)
                } else {
                    Ok(VramBlock { address: low, size })
                }
            },
        }
    }

    /// Creates a checked allocation-relative region.
    pub fn region(&self, range: &Range<u64>) -> (region: Result<VramRegion, Error>)
        ensures
            region == sub_range(self.address, self.size, *range),
    {
        VramRegion { address: self.address, size: self.size }.subregion(range)
    }

    /// Creates a region spanning the complete allocation.
    pub fn full_region(&self) -> (region: VramRegion)
        ensures
            region.address == self.address,
            region.size == self.size,
    {
        VramRegion { address: self.address, size: self.size }
    }
}

/// A byte range of physical memory that an owner keeps in use.
#[derive(Clone, Copy, Debug, PartialEq, Eq, Structural)]
pub struct VramRegion {
    pub address: u64,
    pub size: u64,
}

/// The part of `size` bytes at `address` that `range` selects, relative to `address`.
pub open spec fn sub_range(address: u64, size: u64, range: Range<u64>) -> Result<
    VramRegion,
    Error,
> {
    if range.start >= range.end || range.end > size {
        Err(Error::EINVAL)
    } else if address + range.end > u64::MAX {
        Err(Error::EOVERFLOW)
    } else {
        Ok(
            VramRegion {
                address: (address + range.start) as u64,
                size: (range.end - range.start) as u64,
            },
        )
    }
}

impl VramRegion {
    /// Creates a physical region of a placement, which has to include all of it.
    pub fn from_placement(ranges: &[Range<u64>], range: &Range<u64>) -> (region: Result<
        VramRegion,
        Error,
    >)
        ensures
            region == if range.start < range.end && exists|i: int|
                0 <= i < ranges@.len() && contains(#[trigger] ranges@[i], *range) {
                Ok::<VramRegion, Error>(
                    (VramRegion {
                        address: range.start,
                        size: (range.end - range.start) as u64,
                    }),
                )
            } else {
                Err(Error::EINVAL)
            },
    {
        if range.start >= range.end || !any_contains(ranges, range) {
            return Err(Error::EINVAL);
        }
        Ok(VramRegion { address: range.start, size: range.end - range.start })
    }

    /// Returns the physical address of the first byte in this region.
    pub fn address(&self) -> (address: u64)
        ensures
            address == self.address,
    {
        self.address
    }

    /// Returns the region size in bytes.
    pub fn size(&self) -> (size: u64)
        ensures
            size == self.size,
    {
        self.size
    }

    /// Returns a checked subregion relative to this region.
    pub fn subregion(&self, range: &Range<u64>) -> (region: Result<VramRegion, Error>)
        ensures
            region == sub_range(self.address, self.size, *range),
    {
        if range.start >= range.end || range.end > self.size {
            return Err(Error::EINVAL);
        }
        let size: u64 = range.end - range.start;
        let address: u64 = match self.address.checked_add(range.start) {
            Some(address) => address,
            None => {
                return Err(Error::EOVERFLOW);
            },
        };
        match address.checked_add(size) {
            Some(_) => Ok(VramRegion { address, size }),
            None => Err(Error::EOVERFLOW),
        }
    }
}

/// A subregion of a subregion is the subregion at the sum of the offsets.
pub proof fn law_subregions_compose(
    address: u64,
    size: u64,
    outer: Range<u64>,
    inner: Range<u64>,
)
    requires
        sub_range(address, size, outer) is Ok,
    ensures
        ({
            let middle = sub_range(address, size, outer)->Ok_0;
            inner.start < inner.end <= middle.size ==> sub_range(middle.address, middle.size, inner)
                == sub_range(
                address,
                size,
                (Range {
                    start: (outer.start + inner.start) as u64,
                    end: (outer.start + inner.end) as u64,
                }),
            )
        }),
{
}

/// A subregion lies inside the region that it was made of.
pub proof fn law_subregion_inside(address: u64, size: u64, range: Range<u64>)
    ensures
        sub_range(address, size, range) matches Ok(region) ==> {
            &&& address <= region.address
            &&& region.address + region.size <= address + size
            &&& region.size > 0
        },
{
}

/// Returns whether one of `ranges` includes all of `inner`.
pub fn any_contains(ranges: &[Range<u64>], inner: &Range<u64>) -> (result: bool)
    ensures
        result <==> exists|i: int|
            0 <= i < ranges@.len() && contains(#[trigger] ranges@[i], *inner),
{
    let total: usize = ranges.len();
    let mut i: usize = 0;
    while i < total
        invariant
            i <= total,
            total == ranges@.len(),
            forall|j: int| 0 <= j < i ==> !contains(#[trigger] ranges@[j], *inner),
        decreases total - i,
    {
        if range_contains(&ranges[i], inner) {
            assert(contains(ranges@[i as int], *inner));
            return true;
        }
        i = i + 1;
    }
    false
}

/// Checks a request for one exact physical range. Returns its size and the alignment that its start
/// has to have, which is that of a page at least.
pub fn validate_allocation(range: &Range<u64>, align: u64) -> (result: Result<(u64, u64), Error>)
    ensures
        ({
            let raised = if align >= 4096 {
                align
            } else {
                4096
            };
            let whole = range.start < range.end && range.start % 4096 == 0 && (range.end
                - range.start) % 4096 == 0;
            match result {
                Ok((size, aligned)) => whole && raised <= usize::MAX && power_of_two(
                    raised as nat,
                ) && size == range.end - range.start && aligned == raised,
                Err(Error::EOVERFLOW) => whole && raised > usize::MAX,
                Err(error) => error == Error::EINVAL && (!whole || raised <= usize::MAX
                    && !power_of_two(raised as nat)),
            }
        }),
{
    if range.start >= range.end {
        return Err(Error::EINVAL);
    }
    let size: u64 = range.end - range.start;
    if range.start % 4096 != 0 || size % 4096 != 0 {
        return Err(Error::EINVAL);
    }
    let align: u64 = max_u64(align, 4096);
    if align > usize::MAX as u64 {
        return Err(Error::EOVERFLOW);
    }
    if !is_power_of_two(align) {
        return Err(Error::EINVAL);
    }
    Ok((size, align))
}

/// Checks a request for one exact physical range at a multiple of `align`. Returns its size and the
/// alignment to check the allocation with.
pub fn plan_range(range: &Range<u64>, align: u64) -> (result: Result<(u64, u64), Error>)
    ensures
        ({
            let raised = if align >= 4096 {
                align
            } else {
                4096
            };
            let whole = range.start < range.end && range.start % 4096 == 0 && (range.end
                - range.start) % 4096 == 0;
            match result {
                Ok((size, aligned)) => whole && raised <= usize::MAX && power_of_two(
                    raised as nat,
                ) && size == range.end - range.start && aligned == raised && range.start % raised
                    == 0,
                Err(Error::EOVERFLOW) => whole && raised > usize::MAX,
                Err(error) => error == Error::EINVAL && (!whole || raised <= usize::MAX && (
                !power_of_two(raised as nat) || range.start % raised != 0)),
            }
        }),
{
    match validate_allocation(range, align) {
        Ok((size, align)) => {
            if range.start % align != 0 {
                Err(Error::EINVAL)
            } else {
                Ok((size, align))
            }
        },
        Err(error) => Err(error),
    }
}

/// Memory owned by an allocator.
pub enum AllocatorBacking {
    /// Physical device ranges owned directly by the core allocator.
    Device,
    /// Allocations retained from another allocator.
    Parent(Vec<VramBlock>),
}

/// The addresses of a block that ends at one.
pub open spec fn block_range(block: VramBlock) -> Range<u64> {
    Range { start: block.address, end: (block.address + block.size) as u64 }
}

/// Whether the end of a block is an address.
pub open spec fn block_ends(block: VramBlock) -> bool {
    block.address + block.size <= u64::MAX
}

/// What is wrong with the blocks from `j` on, compared with the one at `i`: the first of them that
/// does not end at an address, or that overlaps it.
pub open spec fn conflict_with(blocks: Seq<VramBlock>, i: int, j: int) -> Option<Error>
    decreases blocks.len() - j,
{
    if j < 0 || j >= blocks.len() {
        None
    } else if !block_ends(blocks[j]) {
        Some(Error::EOVERFLOW)
    } else if overlap(block_range(blocks[i]), block_range(blocks[j])) {
        Some(Error::EINVAL)
    } else {
        conflict_with(blocks, i, j + 1)
    }
}

/// What is wrong with the blocks from `i` on, each compared with those after it.
pub open spec fn conflict(blocks: Seq<VramBlock>, i: int) -> Option<Error>
    decreases blocks.len() - i,
{
    if i < 0 || i >= blocks.len() {
        None
    } else if !block_ends(blocks[i]) {
        Some(Error::EOVERFLOW)
    } else if conflict_with(blocks, i, i + 1) is Some {
        conflict_with(blocks, i, i + 1)
    } else {
        conflict(blocks, i + 1)
    }
}

impl AllocatorBacking {
    /// Retains `blocks`, which have to be some, end at an address and not overlap.
    pub fn from_blocks(blocks: Vec<VramBlock>) -> (backing: Result<Self, Error>)
        ensures
            backing == if blocks@.len() == 0 {
                Err::<Self, Error>(Error::EINVAL)
            } else {
                match conflict(blocks@, 0) {
                    Some(error) => Err(error),
                    None => Ok(AllocatorBacking::Parent(blocks)),
                }
            },
    {
        let total: usize = blocks.len();
        if total == 0 {
            return Err(Error::EINVAL);
        }
        let mut i: usize = 0;
        while i < total
            invariant
                i <= total,
                total == blocks@.len(),
                conflict(blocks@, 0) == conflict(blocks@, i as int),
            decreases total - i,
        {
            let range = match blocks[i].range() {
                Ok(range) => range,
                Err(error) => {
                    return Err(error);
                },
            };
            let mut j: usize = i + 1;
            while j < total
                invariant
                    i < j <= total,
                    total == blocks@.len(),
                    block_ends(blocks@[i as int]),
                    range == block_range(blocks@[i as int]),
                    conflict(blocks@, 0) == conflict(blocks@, i as int),
                    conflict_with(blocks@, i as int, i + 1) == conflict_with(
                        blocks@,
                        i as int,
                        j as int,
                    ),
                decreases total - j,
            {
                let other = match blocks[j].range() {
                    Ok(other) => other,
                    Err(error) => {
                        return Err(error);
                    },
                };
                if ranges_overlap(&range, &other) {
                    return Err(Error::EINVAL);
                }
                j = j + 1;
            }
            i = i + 1;
        }
        Ok(AllocatorBacking::Parent(blocks))
    }

    /// Whether one of the retained blocks includes all of `range`.
    pub open spec fn includes(&self, range: Range<u64>) -> bool {
        match self {
            AllocatorBacking::Device => false,
            AllocatorBacking::Parent(blocks) => any_includes(blocks@, range),
        }
    }

    /// Returns whether one of the retained blocks includes all of `range`.
    pub fn contains_range(&self, range: &Range<u64>) -> (result: bool)
        ensures
            result == self.includes(*range),
    {
        match self {
            AllocatorBacking::Device => false,
            AllocatorBacking::Parent(blocks) => any_block_includes(blocks.as_slice(), range),
        }
    }

    /// Returns the address ranges of the retained blocks.
    pub fn ranges(&self) -> (ranges: Result<Vec<Range<u64>>, Error>)
        ensures
            match self {
                AllocatorBacking::Device => ranges == Err::<Vec<Range<u64>>, Error>(
                    Error::EINVAL,
                ),
                AllocatorBacking::Parent(blocks) => match ranges {
                    Ok(ranges) => all_end(blocks@) && ranges@ == block_ranges(blocks@),
                    Err(error) => !all_end(blocks@) && error == Error::EOVERFLOW,
                },
            },
    {
        match self {
            AllocatorBacking::Device => Err(Error::EINVAL),
            AllocatorBacking::Parent(blocks) => ranges_of_blocks(blocks.as_slice()),
        }
    }
}

/// Whether one of the blocks includes all of `range`.
pub open spec fn any_includes(blocks: Seq<VramBlock>, range: Range<u64>) -> bool {
    exists|i: int|
        0 <= i < blocks.len() && block_ends(#[trigger] blocks[i]) && contains(
            block_range(blocks[i]),
            range,
        )
}

/// Whether all blocks end at an address.
pub open spec fn all_end(blocks: Seq<VramBlock>) -> bool {
    forall|i: int| 0 <= i < blocks.len() ==> block_ends(#[trigger] blocks[i])
}

/// The addresses of the blocks.
pub open spec fn block_ranges(blocks: Seq<VramBlock>) -> Seq<Range<u64>> {
    blocks.map_values(|block: VramBlock| block_range(block))
}

/// Returns whether one of the blocks includes all of `range`.
fn any_block_includes(blocks: &[VramBlock], range: &Range<u64>) -> (result: bool)
    ensures
        result == any_includes(blocks@, *range),
{
    let total: usize = blocks.len();
    let mut i: usize = 0;
    while i < total
        invariant
            i <= total,
            total == blocks@.len(),
            forall|j: int|
                0 <= j < i ==> !(block_ends(#[trigger] blocks@[j]) && contains(
                    block_range(blocks@[j]),
                    *range,
                )),
        decreases total - i,
    {
        match blocks[i].range() {
            Ok(backing) => {
                if range_contains(&backing, range) {
                    assert(contains(block_range(blocks@[i as int]), *range));
                    return true;
                }
            },
            Err(_) => {},
        }
        i = i + 1;
    }
    false
}

/// Returns the addresses of the blocks.
fn ranges_of_blocks(blocks: &[VramBlock]) -> (ranges: Result<Vec<Range<u64>>, Error>)
    ensures
        match ranges {
            Ok(ranges) => all_end(blocks@) && ranges@ == block_ranges(blocks@),
            Err(error) => !all_end(blocks@) && error == Error::EOVERFLOW,
        },
{
    let total: usize = blocks.len();
    let mut ranges: Vec<Range<u64>> = Vec::new();
    let mut i: usize = 0;
    while i < total
        invariant
            i <= total,
            total == blocks@.len(),
            ranges@ == block_ranges(blocks@).take(i as int),
            forall|j: int| 0 <= j < i ==> block_ends(#[trigger] blocks@[j]),
        decreases total - i,
    {
        match blocks[i].range() {
            Ok(range) => {
                ranges.push(range);
            },
            Err(error) => {
                assert(!block_ends(blocks@[i as int]));
                return Err(error);
            },
        }
        i = i + 1;
        assert(ranges@ =~= block_ranges(blocks@).take(i as int));
    }
    assert(ranges@ =~= block_ranges(blocks@));
    Ok(ranges)
}

/// Blocks are accepted as a backing if and only if all of them end at an address and no two of them
/// overlap.
pub proof fn law_backing_blocks_apart(blocks: Seq<VramBlock>)
    ensures
        conflict(blocks, 0) is None <==> all_end(blocks) && apart(block_ranges(blocks)),
{
    lemma_conflict(blocks, 0);
    let ranges = block_ranges(blocks);
    if conflict(blocks, 0) is None {
        assert forall|i: int, j: int| 0 <= i < j < ranges.len() implies !overlap(
            #[trigger] ranges[i],
            #[trigger] ranges[j],
        ) by {
            assert(no_overlap(blocks, i, j));
        }
    }
    if all_end(blocks) && apart(ranges) {
        assert forall|i: int, j: int| 0 <= i < j < blocks.len() implies #[trigger] no_overlap(
            blocks,
            i,
            j,
        ) by {
            assert(!overlap(ranges[i], ranges[j]));
        }
    }
}

/// Whether two of the blocks do not overlap.
spec fn no_overlap(blocks: Seq<VramBlock>, i: int, j: int) -> bool {
    !overlap(block_range(blocks[i]), block_range(blocks[j]))
}

/// There is no conflict from `i` on if and only if the blocks from there on end and are apart.
proof fn lemma_conflict(blocks: Seq<VramBlock>, i: int)
    requires
        0 <= i,
    ensures
        conflict(blocks, i) is None <==> {
            &&& forall|k: int| i <= k < blocks.len() ==> block_ends(#[trigger] blocks[k])
            &&& forall|k: int, j: int|
                i <= k < j < blocks.len() ==> #[trigger] no_overlap(blocks, k, j)
        },
    decreases blocks.len() - i,
{
    if i < blocks.len() {
        lemma_conflict(blocks, i + 1);
        lemma_conflict_with(blocks, i, i + 1);
    }
}

/// There is no conflict with a block from `j` on if and only if the blocks from there on end and do
/// not overlap it.
proof fn lemma_conflict_with(blocks: Seq<VramBlock>, i: int, j: int)
    requires
        0 <= j,
    ensures
        conflict_with(blocks, i, j) is None <==> {
            &&& forall|k: int| j <= k < blocks.len() ==> block_ends(#[trigger] blocks[k])
            &&& forall|k: int| j <= k < blocks.len() ==> #[trigger] no_overlap(blocks, i, k)
        },
    decreases blocks.len() - j,
{
    if j < blocks.len() {
        assert(no_overlap(blocks, i, j) == !overlap(
            block_range(blocks[i]),
            block_range(blocks[j]),
        ));
        lemma_conflict_with(blocks, i, j + 1);
    }
}

/// The addresses that the blocks cover.
pub open spec fn covered_addresses(blocks: Seq<AllocatedBlock>) -> Set<int>
    decreases blocks.len(),
{
    if blocks.len() == 0 {
        Set::empty()
    } else {
        covered_addresses(blocks.drop_last()).union(
            set_int_range(
                blocks.last().offset as int,
                blocks.last().offset + blocks.last().size,
            ),
        )
    }
}

/// Whether no two of the blocks share an address.
pub open spec fn blocks_apart(blocks: Seq<AllocatedBlock>) -> bool {
    forall|i: int, j: int|
        0 <= i < j < blocks.len() ==> (#[trigger] blocks[i]).offset + blocks[i].size
            <= (#[trigger] blocks[j]).offset || blocks[j].offset + blocks[j].size
            <= blocks[i].offset
}

/// A covered address lies in one of the blocks.
proof fn lemma_covered_in_block(blocks: Seq<AllocatedBlock>, a: int)
    ensures
        covered_addresses(blocks).contains(a) <==> exists|i: int|
            0 <= i < blocks.len() && (#[trigger] blocks[i]).offset <= a < blocks[i].offset
                + blocks[i].size,
    decreases blocks.len(),
{
    if blocks.len() > 0 {
        let rest = blocks.drop_last();
        lemma_covered_in_block(rest, a);
        if covered_addresses(rest).contains(a) {
            let i = choose|i: int|
                0 <= i < rest.len() && (#[trigger] rest[i]).offset <= a < rest[i].offset
                    + rest[i].size;
            assert(blocks[i] == rest[i]);
        }
        if exists|i: int|
            0 <= i < blocks.len() && (#[trigger] blocks[i]).offset <= a < blocks[i].offset
                + blocks[i].size {
            let i = choose|i: int|
                0 <= i < blocks.len() && (#[trigger] blocks[i]).offset <= a < blocks[i].offset
                    + blocks[i].size;
            if i < rest.len() {
                assert(rest[i] == blocks[i]);
            }
        }
        let last = blocks.last();
        assert(blocks[blocks.len() - 1] == last);
    }
}

/// Blocks that are apart cover as many addresses as their sizes add up to.
proof fn lemma_covered_len(blocks: Seq<AllocatedBlock>)
    requires
        blocks_apart(blocks),
    ensures
        covered_addresses(blocks).finite(),
        covered_addresses(blocks).len() == covered(blocks),
    decreases blocks.len(),
{
    if blocks.len() > 0 {
        let rest = blocks.drop_last();
        let last = blocks.last();
        assert(blocks_apart(rest)) by {
            assert forall|i: int, j: int| 0 <= i < j < rest.len() implies (
            #[trigger] rest[i]).offset + rest[i].size <= (#[trigger] rest[j]).offset
                || rest[j].offset + rest[j].size <= rest[i].offset by {
                assert(rest[i] == blocks[i] && rest[j] == blocks[j]);
            }
        }
        lemma_covered_len(rest);
        let own = set_int_range(last.offset as int, last.offset + last.size);
        lemma_int_range(last.offset as int, last.offset + last.size);
        assert(covered_addresses(rest).disjoint(own)) by {
            assert forall|a: int| !(covered_addresses(rest).contains(a) && own.contains(a)) by {
                lemma_covered_in_block(rest, a);
                if covered_addresses(rest).contains(a) && own.contains(a) {
                    let i = choose|i: int|
                        0 <= i < rest.len() && (#[trigger] rest[i]).offset <= a
                            < rest[i].offset + rest[i].size;
                    assert(rest[i] == blocks[i]);
                    assert(blocks[blocks.len() - 1] == last);
                }
            }
        }
        vstd::set_lib::lemma_set_disjoint_lens(covered_addresses(rest), own);
    }
}

/// Where an allocation is accepted whose blocks are apart, they cover every address from its start
/// up to its end: it is physically contiguous.
pub proof fn law_accepted_allocation_is_contiguous(
    blocks: Seq<AllocatedBlock>,
    size: u64,
    align: u64,
    expected_address: Option<u64>,
    a: int,
)
    requires
        blocks.len() > 0,
        blocks_apart(blocks),
        contiguous(blocks, size, align, expected_address),
        lowest(blocks) <= a < lowest(blocks) + size,
    ensures
        exists|i: int|
            0 <= i < blocks.len() && (#[trigger] blocks[i]).offset <= a < blocks[i].offset
                + blocks[i].size,
{
    let all = covered_addresses(blocks);
    let span = set_int_range(lowest(blocks), highest(blocks));
    lemma_covered_len(blocks);
    lemma_int_range(lowest(blocks), highest(blocks));
    assert(all.subset_of(span)) by {
        assert forall|b: int| all.contains(b) implies span.contains(b) by {
            lemma_covered_in_block(blocks, b);
            let i = choose|i: int|
                0 <= i < blocks.len() && (#[trigger] blocks[i]).offset <= b < blocks[i].offset
                    + blocks[i].size;
            lemma_between(blocks, i);
        }
    }
    vstd::set_lib::lemma_subset_equality(all, span);
    assert(span.contains(a));
    lemma_covered_in_block(blocks, a);
}

/// The bytes that blocks cover add up, and the lowest and the highest address are those of blocks.
pub proof fn law_block_bounds(blocks: Seq<AllocatedBlock>, block: AllocatedBlock)
    ensures
        covered(Seq::empty()) == 0,
        covered(blocks.push(block)) == covered(blocks) + block.size,
        blocks.len() > 0 ==> {
            &&& exists|i: int|
                0 <= i < blocks.len() && (#[trigger] blocks[i]).offset == lowest(blocks)
            &&& exists|i: int|
                0 <= i < blocks.len() && (#[trigger] blocks[i]).offset + blocks[i].size == highest(
                    blocks,
                )
            &&& forall|i: int|
                0 <= i < blocks.len() ==> lowest(blocks) <= (#[trigger] blocks[i]).offset
                    && blocks[i].offset + blocks[i].size <= highest(blocks)
        },
{
    assert(blocks.push(block).drop_last() =~= blocks);
    if blocks.len() > 0 {
        lemma_bounds_attained(blocks);
        assert forall|i: int| 0 <= i < blocks.len() implies lowest(blocks) <= (
        #[trigger] blocks[i]).offset && blocks[i].offset + blocks[i].size <= highest(blocks) by {
            lemma_between(blocks, i);
        }
    }
}

/// Some block starts at the lowest address, and some block ends at the highest.
proof fn lemma_bounds_attained(blocks: Seq<AllocatedBlock>)
    requires
        blocks.len() > 0,
    ensures
        exists|i: int| 0 <= i < blocks.len() && (#[trigger] blocks[i]).offset == lowest(blocks),
        exists|i: int|
            0 <= i < blocks.len() && (#[trigger] blocks[i]).offset + blocks[i].size == highest(
                blocks,
            ),
    decreases blocks.len(),
{
    let last = blocks.last();
    assert(blocks[blocks.len() - 1] == last);
    if blocks.len() > 1 {
        let rest = blocks.drop_last();
        lemma_bounds_attained(rest);
        let i = choose|i: int| 0 <= i < rest.len() && (#[trigger] rest[i]).offset == lowest(rest);
        let j = choose|j: int|
            0 <= j < rest.len() && (#[trigger] rest[j]).offset + rest[j].size == highest(rest);
        assert(blocks[i] == rest[i] && blocks[j] == rest[j]);
    }
}

/// An allocation is accepted where its blocks add up to the size asked for, reach from the lowest to
/// the highest address over that size, start at a multiple of the alignment, and start where they
/// were expected to.
pub proof fn law_accepted_allocation(
    blocks: Seq<AllocatedBlock>,
    size: u64,
    align: u64,
    expected: u64,
)
    requires
        align > 0,
    ensures
        contiguous(blocks, size, align, None) <==> covered(blocks) == size && highest(blocks)
            == lowest(blocks) + size && lowest(blocks) % align as int == 0,
        contiguous(blocks, size, align, Some(expected)) <==> contiguous(blocks, size, align, None)
            && lowest(blocks) == expected,
{
}

/// Blocks are addressable where each of them ends at an address and they cover at most as many bytes
/// as there are addresses.
pub proof fn law_addressable(blocks: Seq<AllocatedBlock>, block: AllocatedBlock)
    ensures
        addressable(Seq::empty()),
        addressable(blocks.push(block)) ==> block.offset + block.size <= u64::MAX && covered(blocks)
            + block.size <= u64::MAX,
        addressable(blocks) && block.offset + block.size <= u64::MAX && covered(blocks) + block.size
            <= u64::MAX ==> addressable(blocks.push(block)),
{
    let more = blocks.push(block);
    assert(more.drop_last() =~= blocks);
    assert(more[blocks.len() as int] == block);
}

/// A subregion is the part of a region that a range selects, where the range is not empty and ends
/// inside the region. It has to end at an address.
pub proof fn law_subregion(address: u64, size: u64, range: Range<u64>)
    ensures
        match sub_range(address, size, range) {
            Ok(region) => {
                &&& range.start < range.end <= size
                &&& region.address == address + range.start
                &&& region.address + region.size == address + range.end
            },
            Err(Error::EINVAL) => !(range.start < range.end && range.end <= size),
            Err(error) => error == Error::EOVERFLOW && range.start < range.end <= size && address
                + range.end > u64::MAX,
        },
{
}

/// The addresses of a block are as many as its size, from its address on.
pub proof fn law_block_addresses(blocks: Seq<VramBlock>, i: int)
    requires
        0 <= i < blocks.len(),
    ensures
        block_ends(blocks[i]) <==> blocks[i].address + blocks[i].size < 0x1_0000_0000_0000_0000,
        block_ends(blocks[i]) ==> {
            &&& block_range(blocks[i]).start == blocks[i].address
            &&& block_range(blocks[i]).end == blocks[i].address + blocks[i].size
        },
        block_ranges(blocks).len() == blocks.len(),
        block_ranges(blocks)[i] == block_range(blocks[i]),
        all_end(blocks) ==> block_ends(blocks[i]),
{
}

/// What is wrong with blocks: that one does not end at an address, or that two share one.
pub proof fn law_conflict_kinds(blocks: Seq<VramBlock>, i: int)
    requires
        0 <= i,
    ensures
        match conflict(blocks, i) {
            None => true,
            Some(Error::EOVERFLOW) => exists|k: int|
                i <= k < blocks.len() && (#[trigger] blocks[k]).address + blocks[k].size > u64::MAX,
            Some(error) => error == Error::EINVAL && exists|k: int, l: int|
                i <= k < l < blocks.len() && (#[trigger] blocks[k]).address < (
                #[trigger] blocks[l]).address + blocks[l].size && blocks[l].address
                    < blocks[k].address + blocks[k].size,
        },
    decreases blocks.len() - i,
{
    if i < blocks.len() {
        law_conflict_kinds(blocks, i + 1);
        if block_ends(blocks[i]) {
            lemma_conflict_with_kinds(blocks, i, i + 1);
        }
    }
}

/// What is wrong with blocks, compared with another one: that one does not end at an address, or that
/// it shares one.
proof fn lemma_conflict_with_kinds(blocks: Seq<VramBlock>, i: int, j: int)
    requires
        0 <= i < j,
        i < blocks.len(),
        block_ends(blocks[i]),
    ensures
        match conflict_with(blocks, i, j) {
            None => true,
            Some(Error::EOVERFLOW) => exists|k: int|
                j <= k < blocks.len() && (#[trigger] blocks[k]).address + blocks[k].size > u64::MAX,
            Some(error) => error == Error::EINVAL && exists|l: int|
                j <= l < blocks.len() && blocks[i].address < (#[trigger] blocks[l]).address
                    + blocks[l].size && blocks[l].address < blocks[i].address + blocks[i].size,
        },
    decreases blocks.len() - j,
{
    if j < blocks.len() {
        lemma_conflict_with_kinds(blocks, i, j + 1);
    }
}

/// A backing includes a range where one of its blocks reaches from the start of it or before to its
/// end or after. A device backing includes none.
pub proof fn law_backing_includes(blocks: Vec<VramBlock>, range: Range<u64>)
    ensures
        (AllocatorBacking::Parent(blocks)).includes(range) <==> exists|i: int|
            0 <= i < blocks@.len() && (#[trigger] blocks@[i]).address + blocks@[i].size <= u64::MAX
                && blocks@[i].address <= range.start && range.end <= blocks@[i].address
                + blocks@[i].size,
        !AllocatorBacking::Device.includes(range),
{
}

} // verus!
