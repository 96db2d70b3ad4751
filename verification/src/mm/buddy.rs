//! Allocation policies over buddy regions.

use core::ops::Range;

use vstd::prelude::*;

use crate::error::Error;
use crate::mm::{
    apart, contains, is_fb_range, is_internal_choice, law_internal_choice_usable, overlap,
    ranges_overlap, validate_fb_range,
};
use crate::num::{align_up, is_power_of_two, lemma_align_up, power_of_two, spec_align_up};

verus! {

/// One disjoint physical range with a buddy allocator of its own.
#[derive(Clone, Copy, Debug, PartialEq, Eq, Structural)]
pub struct Region {
    pub base_offset: u64,
    pub size: u64,
}

impl Region {
    /// The address after the last one of the region.
    pub open spec fn end(self) -> int {
        self.base_offset + self.size
    }
}

/// An allocation to try from a region: the addresses from `start` up to `end`, relative to the
/// base of the region.
#[derive(Clone, Copy, Debug, PartialEq, Eq, Structural)]
pub struct Try {
    pub region: usize,
    pub start: u64,
    pub end: u64,
}

/// What to do next in a search for free memory.
#[derive(Clone, Copy, Debug, PartialEq, Eq, Structural)]
pub enum Step {
    /// Try this allocation. If there is no space there, the search goes on.
    Try(Try),
    /// Give up with this error.
    Stop(Error),
}

/// Returns what the outcome of a try means for the search: `None` if it goes on, and how it ends
/// otherwise.
pub fn settle(outcome: Result<(), Error>) -> (end: Option<Result<(), Error>>)
    ensures
        end == if outcome == Err::<(), Error>(Error::ENOSPC) {
            None
        } else {
            Some(outcome)
        },
{
    match outcome {
        Ok(_) => Some(outcome),
        Err(error) => {
            if error == Error::ENOSPC {
                None
            } else {
                Some(outcome)
            }
        },
    }
}

/// The regions that `ranges` make.
pub open spec fn regions_of(ranges: Seq<Range<u64>>) -> Seq<Region> {
    ranges.map_values(
        |range: Range<u64>|
            Region { base_offset: range.start, size: (range.end - range.start) as u64 },
    )
}

/// Returns the parameters of a buddy allocator over `range`.
pub fn buddy_params(range: &Range<u64>) -> (region: Result<Region, Error>)
    ensures
        region == if is_fb_range(*range) {
            Ok::<Region, Error>(
                (Region { base_offset: range.start, size: (range.end - range.start) as u64 }),
            )
        } else {
            Err(Error::EINVAL)
        },
{
    match validate_fb_range(range) {
        Ok(_) => Ok(Region { base_offset: range.start, size: range.end - range.start }),
        Err(error) => Err(error),
    }
}

/// Returns the first range after `index` that overlaps the one there, if there is one.
fn overlapping_after(ranges: &[Range<u64>], index: usize) -> (found: Option<usize>)
    requires
        index < ranges@.len(),
    ensures
        match found {
            Some(other) => index < other < ranges@.len() && overlap(
                ranges@[index as int],
                ranges@[other as int],
            ),
            None => forall|j: int|
                index < j < ranges@.len() ==> !overlap(
                    ranges@[index as int],
                    #[trigger] ranges@[j],
                ),
        },
{
    let total: usize = ranges.len();
    let mut other: usize = index + 1;
    while other < total
        invariant
            index < other <= total,
            total == ranges@.len(),
            forall|j: int|
                index < j < other ==> !overlap(ranges@[index as int], #[trigger] ranges@[j]),
        decreases total - other,
    {
        if ranges_overlap(&ranges[index], &ranges[other]) {
            return Some(other);
        }
        other = other + 1;
    }
    None
}

/// Whether an allocator can be made over `ranges`: all of them are whole pages and no two overlap.
pub open spec fn allocatable(ranges: Seq<Range<u64>>) -> bool {
    &&& forall|i: int| 0 <= i < ranges.len() ==> is_fb_range(#[trigger] ranges[i])
    &&& apart(ranges)
}

/// Returns the buddy regions of an allocator over `ranges`.
pub fn new_regions(ranges: &[Range<u64>]) -> (regions: Result<Vec<Region>, Error>)
    ensures
        match regions {
            Ok(regions) => ranges@.len() > 0 && allocatable(ranges@) && regions@ == regions_of(
                ranges@,
            ),
            Err(error) => if ranges@.len() == 0 {
                error == Error::ENOSPC
            } else {
                error == Error::EINVAL && !allocatable(ranges@)
            },
        },
{
    let total: usize = ranges.len();
    if total == 0 {
        return Err(Error::ENOSPC);
    }
    let mut regions: Vec<Region> = Vec::new();
    let mut i: usize = 0;
    while i < total
        invariant
            i <= total,
            total == ranges@.len(),
            regions@ == regions_of(ranges@).take(i as int),
            forall|k: int| 0 <= k < i ==> is_fb_range(#[trigger] ranges@[k]),
            forall|k: int, j: int|
                0 <= k < i && k < j < total ==> !overlap(
                    #[trigger] ranges@[k],
                    #[trigger] ranges@[j],
                ),
        decreases total - i,
    {
        let region = match buddy_params(&ranges[i]) {
            Ok(region) => region,
            Err(error) => {
                assert(!is_fb_range(ranges@[i as int]));
                return Err(error);
            },
        };
        match overlapping_after(ranges, i) {
            Some(other) => {
                assert(overlap(ranges@[i as int], ranges@[other as int]));
                return Err(Error::EINVAL);
            },
            None => {},
        }
        regions.push(region);
        i = i + 1;
        assert(regions@ =~= regions_of(ranges@).take(i as int));
    }
    assert(regions@ =~= regions_of(ranges@));
    Ok(regions)
}

/// Returns where to reserve exactly the physical `range`: the first region that includes it.
///
/// If there is none this returns `ENOSPC` instead of choosing a different address. A region whose
/// end is no address fails the search where it is met.
pub fn reserve_range(regions: &[Region], range: &Range<u64>) -> (target: Result<Try, Error>)
    ensures
        target == if is_fb_range(*range) {
            range_target(regions@, *range, 0)
        } else {
            Err(Error::EINVAL)
        },
{
    match validate_fb_range(range) {
        Ok(_) => {},
        Err(error) => {
            return Err(error);
        },
    }
    let total: usize = regions.len();
    let mut i: usize = 0;
    while i < total
        invariant
            i <= total,
            total == regions@.len(),
            is_fb_range(*range),
            range_target(regions@, *range, 0) == range_target(regions@, *range, i as int),
        decreases total - i,
    {
        let start: u64 = regions[i].base_offset;
        let end: u64 = match start.checked_add(regions[i].size) {
            Some(end) => end,
            None => {
                return Err(Error::EOVERFLOW);
            },
        };
        if start <= range.start && range.end <= end {
            return Ok(Try { region: i, start: range.start - start, end: range.end - start });
        }
        i = i + 1;
    }
    Err(Error::ENOSPC)
}

/// Where an exact physical range is reserved, from region `i` on.
pub open spec fn range_target(regions: Seq<Region>, range: Range<u64>, i: int) -> Result<Try, Error>
    decreases regions.len() - i,
{
    if i < 0 || i >= regions.len() {
        Err(Error::ENOSPC)
    } else if regions[i].end() > u64::MAX {
        Err(Error::EOVERFLOW)
    } else if regions[i].base_offset <= range.start && range.end <= regions[i].end() {
        Ok(
            Try {
                region: i as usize,
                start: (range.start - regions[i].base_offset) as u64,
                end: (range.end - regions[i].base_offset) as u64,
            },
        )
    } else {
        range_target(regions, range, i + 1)
    }
}

/// How many aligned places for `size` bytes a region has, from `address` on.
pub open spec fn places(region: Region, address: int, size: int, align: int) -> int {
    if address + size <= region.end() {
        (region.end() - size - address) / align + 1
    } else {
        0
    }
}

/// The aligned places for `size` bytes in region `i`, lowest first, from `address` on.
pub open spec fn region_tries(
    regions: Seq<Region>,
    i: int,
    address: int,
    size: int,
    align: int,
) -> Seq<Try> {
    Seq::new(
        places(regions[i], address, size, align) as nat,
        |k: int|
            Try {
                region: i as usize,
                start: (address + k * align - regions[i].base_offset) as u64,
                end: (address + k * align + size - regions[i].base_offset) as u64,
            },
    )
}

/// The first aligned address of region `i`.
pub open spec fn first_address(regions: Seq<Region>, i: int, align: int) -> int {
    spec_align_up(regions[i].base_offset as int, align)
}

/// The tries of a search for an aligned range, from region `i` on, and the error that it ends with
/// if there is no space in any of them. A region whose end is no address ends it early.
pub open spec fn tries_from(regions: Seq<Region>, i: int, size: int, align: int) -> (
    Seq<Try>,
    Error,
)
    decreases regions.len() - i,
{
    if i < 0 || i >= regions.len() {
        (seq![], Error::ENOSPC)
    } else if regions[i].end() > u64::MAX {
        (seq![], Error::EOVERFLOW)
    } else {
        let (rest, error) = tries_from(regions, i + 1, size, align);
        (
            region_tries(regions, i, first_address(regions, i, align), size, align) + rest,
            error,
        )
    }
}

/// A search for an aligned, physically contiguous range.
///
/// The managed regions are searched in order, and each of them from its first aligned address up,
/// until an allocation succeeds or there is nothing left to try.
pub struct AlignedSearch {
    regions: Vec<Region>,
    size: u64,
    align: u64,
    region: usize,
    /// The next address to try in the current region, if that has been started.
    address: Option<u64>,
}

impl AlignedSearch {
    #[verifier::type_invariant]
    spec fn inv(self) -> bool {
        &&& self.size > 0
        &&& self.align > 0
        &&& self.region <= self.regions@.len()
        &&& self.address matches Some(address) ==> {
            &&& self.region < self.regions@.len()
            &&& self.regions@[self.region as int].end() <= u64::MAX
            &&& self.regions@[self.region as int].base_offset <= address
        }
    }

    /// The tries that are still to come, and the error that the search ends with after them.
    pub closed spec fn remaining(&self) -> (Seq<Try>, Error) {
        let i = self.region as int;
        let size = self.size as int;
        let align = self.align as int;
        match self.address {
            None => tries_from(self.regions@, i, size, align),
            Some(address) => {
                let (rest, error) = tries_from(self.regions@, i + 1, size, align);
                (region_tries(self.regions@, i, address as int, size, align) + rest, error)
            },
        }
    }

    /// Starts a search for `size` bytes at a multiple of `address_align`.
    pub fn new(regions: Vec<Region>, size: u64, address_align: u64) -> (search: Result<Self, Error>)
        ensures
            match search {
                Ok(search) => size > 0 && power_of_two(address_align as nat) && search.remaining()
                    == tries_from(regions@, 0, size as int, address_align as int),
                Err(error) => error == Error::EINVAL && (size == 0 || !power_of_two(
                    address_align as nat,
                )),
            },
    {
        if size == 0 || !is_power_of_two(address_align) {
            return Err(Error::EINVAL);
        }
        Ok(AlignedSearch { regions, size, align: address_align, region: 0, address: None })
    }

    /// Returns what to try next.
    pub fn next(&mut self) -> (step: Step)
        ensures
            ({
                let (tries, error) = old(self).remaining();
                if tries.len() > 0 {
                    &&& step == Step::Try(tries[0])
                    &&& final(self).remaining() == (tries.skip(1), error)
                } else {
                    &&& step == Step::Stop(error)
                    &&& final(self).remaining() == old(self).remaining()
                }
            }),
    {
        proof {
            use_type_invariant(&*self);
        }
        let ghost goal = self.remaining();
        let size: u64 = self.size;
        let align: u64 = self.align;
        let total: usize = self.regions.len();
        let mut i: usize = self.region;
        let mut address: Option<u64> = self.address;
        while i < total
            invariant
                size == self.size,
                align == self.align,
                size > 0,
                align > 0,
                *self == *old(self),
                total == self.regions@.len(),
                i <= total,
                address matches Some(address) ==> {
                    &&& i < total
                    &&& self.regions@[i as int].end() <= u64::MAX
                    &&& self.regions@[i as int].base_offset <= address
                },
                goal == old(self).remaining(),
                goal == remaining_at(
                    self.regions@,
                    i as int,
                    address,
                    size as int,
                    align as int,
                ),
            decreases total - i,
        {
            let region = self.regions[i];
            let start: u64 = region.base_offset;
            let end: u64 = match start.checked_add(region.size) {
                Some(end) => end,
                None => {
                    return Step::Stop(Error::EOVERFLOW);
                },
            };
            let ghost regions = self.regions@;
            let current: Option<u64> = match address {
                Some(address) => Some(address),
                None => align_up(start, align),
            };
            proof {
                lemma_align_up(start as int, align as int);
            }
            let fits: Option<u64> = match current {
                Some(current) => match current.checked_add(size) {
                    Some(last) => if last <= end {
                        Some(last)
                    } else {
                        None
                    },
                    None => None,
                },
                None => None,
            };
            match (current, fits) {
                (Some(current), Some(last)) => {
                    let tried = Try { region: i, start: current - start, end: last - start };
                    let ghost rest = tries_from(regions, i + 1, size as int, align as int);
                    let ghost tries = region_tries(
                        regions,
                        i as int,
                        current as int,
                        size as int,
                        align as int,
                    );
                    proof {
                        lemma_places(region, current as int, size as int, align as int);
                        assert(current + 0 * align == current) by (nonlinear_arith);
                        assert(tries[0] == tried);
                        assert((tries + rest.0).skip(1) =~= tries.skip(1) + rest.0);
                        let after = region_tries(
                            regions,
                            i as int,
                            current + align,
                            size as int,
                            align as int,
                        );
                        assert forall|k: int| 0 <= k < after.len() implies after[k] == tries.skip(
                            1,
                        )[k] by {
                            assert(current + align + k * align == current + (k + 1) * align)
                                by (nonlinear_arith);
                        }
                        assert(after =~= tries.skip(1));
                    }
                    proof {
                        use_type_invariant(&*self);
                    }
                    match current.checked_add(align) {
                        Some(next) => {
                            self.address = None;
                            self.region = i;
                            self.address = Some(next);
                        },
                        None => {
                            proof {
                                assert(tries.skip(1) =~= seq![]);
                                assert(tries.skip(1) + rest.0 =~= rest.0);
                            }
                            self.address = None;
                            self.region = i + 1;
                        },
                    }
                    return Step::Try(tried);
                },
                _ => {
                    proof {
                        let at = match address {
                            Some(address) => address as int,
                            None => first_address(regions, i as int, align as int),
                        };
                        let rest = tries_from(regions, i + 1, size as int, align as int);
                        let none = region_tries(
                            regions,
                            i as int,
                            at,
                            size as int,
                            align as int,
                        );
                        assert(none =~= seq![]);
                        assert(none + rest.0 =~= rest.0);
                    }
                    address = None;
                    i = i + 1;
                },
            }
        }
        Step::Stop(Error::ENOSPC)
    }
}

/// The tries from a place in a search on, and the error that ends it.
spec fn remaining_at(
    regions: Seq<Region>,
    i: int,
    address: Option<u64>,
    size: int,
    align: int,
) -> (Seq<Try>, Error) {
    match address {
        None => tries_from(regions, i, size, align),
        Some(address) => {
            let (rest, error) = tries_from(regions, i + 1, size, align);
            (region_tries(regions, i, address as int, size, align) + rest, error)
        },
    }
}

/// There is one place less from the next aligned address on.
proof fn lemma_places(region: Region, address: int, size: int, align: int)
    requires
        align > 0,
        address + size <= region.end(),
    ensures
        places(region, address + align, size, align) == places(region, address, size, align) - 1,
        places(region, address, size, align) >= 1,
{
    let room = region.end() - size - address;
    if room >= align {
        vstd::arithmetic::div_mod::lemma_div_plus_one(room - align, align);
    } else {
        vstd::arithmetic::div_mod::lemma_basic_div(room, align);
    }
    vstd::arithmetic::div_mod::lemma_div_pos_is_pos(room, align);
}

/// Returns the region to allocate from in the given attempt, where any region will do: one after
/// the other until none is left.
pub fn alloc_region(regions: &[Region], attempt: usize) -> (region: Result<usize, Error>)
    ensures
        region == if attempt < regions@.len() {
            Ok::<usize, Error>(attempt)
        } else {
            Err(Error::ENOSPC)
        },
{
    if attempt < regions.len() {
        Ok(attempt)
    } else {
        Err(Error::ENOSPC)
    }
}

/// Whether the address that a try starts at is aligned, and the try has the size asked for and lies
/// in its region.
pub open spec fn is_place(regions: Seq<Region>, tried: Try, size: int, align: int) -> bool {
    &&& tried.region < regions.len()
    &&& tried.end - tried.start == size
    &&& (regions[tried.region as int].base_offset + tried.start) % align == 0
    &&& tried.end <= regions[tried.region as int].size
}

/// Whatever a search tries is an aligned place of the size asked for, inside a managed region.
pub proof fn law_tries_are_places(regions: Seq<Region>, i: int, size: int, align: int, k: int)
    requires
        0 <= i,
        regions.len() <= usize::MAX,
        0 < size <= u64::MAX,
        0 < align <= u64::MAX,
        0 <= k < tries_from(regions, i, size, align).0.len(),
    ensures
        is_place(regions, tries_from(regions, i, size, align).0[k], size, align),
    decreases regions.len() - i,
{
    let region = regions[i];
    let first = first_address(regions, i, align);
    let here = region_tries(regions, i, first, size, align);
    if k < here.len() {
        lemma_align_up(region.base_offset as int, align);
        lemma_place_bounds(region, first, size, align, k);
        vstd::arithmetic::div_mod::lemma_mod_multiples_vanish(k, first, align);
        assert(align * k == k * align) by (nonlinear_arith);
    } else {
        law_tries_are_places(regions, i + 1, size, align, k - here.len());
    }
}

/// The `k`-th place from `address` on lies in the region.
proof fn lemma_place_bounds(region: Region, address: int, size: int, align: int, k: int)
    requires
        align > 0,
        size > 0,
        region.base_offset <= address,
        0 <= k < places(region, address, size, align),
    ensures
        address <= address + k * align,
        address + k * align + size <= region.end(),
{
    let room = region.end() - size - address;
    vstd::arithmetic::div_mod::lemma_fundamental_div_mod(room, align);
    assert(0 <= k * align <= room) by (nonlinear_arith)
        requires
            0 <= k <= room / align,
            room == align * (room / align) + room % align,
            room % align >= 0,
            align > 0,
    ;
}

/// A search misses no aligned place: if all regions end at an address, every place is tried.
pub proof fn law_tries_are_complete(
    regions: Seq<Region>,
    i: int,
    size: int,
    align: int,
    tried: Try,
)
    requires
        0 <= i <= tried.region,
        regions.len() <= usize::MAX,
        0 < size <= u64::MAX,
        0 < align <= u64::MAX,
        forall|j: int| 0 <= j < regions.len() ==> (#[trigger] regions[j]).end() <= u64::MAX,
        is_place(regions, tried, size, align),
    ensures
        tries_from(regions, i, size, align).0.contains(tried),
    decreases regions.len() - i,
{
    let all = tries_from(regions, i, size, align).0;
    let region = regions[i];
    let first = first_address(regions, i, align);
    let here = region_tries(regions, i, first, size, align);
    if tried.region == i {
        let address = region.base_offset + tried.start;
        lemma_align_up(region.base_offset as int, align);
        lemma_multiples_apart(first, address, align);
        let k = (address - first) / align;
        let room = region.end() - size - first;
        assert(address == first + k * align);
        assert(0 <= k <= room / align) by {
            vstd::arithmetic::div_mod::lemma_div_is_ordered(address - first, room, align);
            vstd::arithmetic::div_mod::lemma_div_pos_is_pos(address - first, align);
        }
        assert(here[k] == tried);
        assert(all[k] == tried);
    } else {
        law_tries_are_complete(regions, i + 1, size, align, tried);
        let rest = tries_from(regions, i + 1, size, align).0;
        let k = choose|k: int| 0 <= k < rest.len() && rest[k] == tried;
        assert(all[here.len() + k] == tried);
    }
}

/// A multiple that is not below the base is not below the first multiple there, and a whole number
/// of steps above it.
proof fn lemma_multiples_apart(first: int, address: int, align: int)
    requires
        align > 0,
        first % align == 0,
        address % align == 0,
        address > first - align,
    ensures
        first <= address,
        address == first + ((address - first) / align) * align,
{
    let a = first / align;
    let b = address / align;
    vstd::arithmetic::div_mod::lemma_fundamental_div_mod(first, align);
    vstd::arithmetic::div_mod::lemma_fundamental_div_mod(address, align);
    assert(address - first == (b - a) * align) by (nonlinear_arith)
        requires
            first == align * a,
            address == align * b,
    ;
    assert(b - a > -1) by (nonlinear_arith)
        requires
            (b - a) * align > -align,
            align > 0,
    ;
    vstd::arithmetic::div_mod::lemma_div_multiples_vanish(b - a, align);
    assert((b - a) * align == align * (b - a)) by (nonlinear_arith);
}

/// A range that lies in one of the ranges of an allocator, from the `from`-th on, is found there.
proof fn lemma_contained_range_found(ranges: Seq<Range<u64>>, range: Range<u64>, from: int, i: int)
    requires
        0 <= from <= i < ranges.len(),
        forall|k: int| 0 <= k < ranges.len() ==> is_fb_range(#[trigger] ranges[k]),
        contains(ranges[i], range),
    ensures
        range_target(regions_of(ranges), range, from) is Ok,
    decreases i - from,
{
    assert(is_fb_range(ranges[from]));
    if from < i {
        lemma_contained_range_found(ranges, range, from + 1, i);
    }
}

/// The range that is chosen for internal use from the usable ranges is one that an allocator over those
/// ranges can be asked to reserve.
pub proof fn law_internal_range_found(usable: Seq<Range<u64>>, size: u64, chosen: Range<u64>)
    requires
        is_internal_choice(usable, size, chosen),
        size > 0,
        size % 4096 == 0,
        forall|i: int| 0 <= i < usable.len() ==> is_fb_range(#[trigger] usable[i]),
    ensures
        is_fb_range(chosen),
        range_target(regions_of(usable), chosen, 0) is Ok,
{
    law_internal_choice_usable(usable, size, chosen);
    let i = choose|i: int| 0 <= i < usable.len() && contains(#[trigger] usable[i], chosen);
    lemma_contained_range_found(usable, chosen, 0, i);
}

/// The regions of some ranges are the ranges: each starts and ends where its range does.
pub proof fn law_regions_of_ranges(ranges: Seq<Range<u64>>, i: int)
    requires
        0 <= i < ranges.len(),
        ranges[i].start <= ranges[i].end,
    ensures
        regions_of(ranges).len() == ranges.len(),
        regions_of(ranges)[i].base_offset == ranges[i].start,
        regions_of(ranges)[i].end() == ranges[i].end,
        regions_of(ranges)[i].base_offset + regions_of(ranges)[i].size == ranges[i].end,
{
}

/// An exact range is reserved in the first region that includes it, at the same addresses, which are
/// given relative to the base of that region.
pub proof fn law_exact_range_place(regions: Seq<Region>, range: Range<u64>, from: int)
    requires
        0 <= from,
        regions.len() <= usize::MAX,
        range.start <= range.end,
    ensures
        match range_target(regions, range, from) {
            Ok(place) => {
                &&& from <= place.region < regions.len()
                &&& regions[place.region as int].base_offset + place.start == range.start
                &&& regions[place.region as int].base_offset + place.end == range.end
                &&& place.end <= regions[place.region as int].size
                &&& forall|i: int|
                    from <= i < place.region ==> (#[trigger] regions[i]).base_offset > range.start
                        || range.end > regions[i].base_offset + regions[i].size
            },
            Err(Error::ENOSPC) => forall|i: int|
                from <= i < regions.len() ==> (#[trigger] regions[i]).base_offset > range.start
                    || range.end > regions[i].base_offset + regions[i].size,
            Err(error) => error == Error::EOVERFLOW && exists|i: int|
                from <= i < regions.len() && (#[trigger] regions[i]).base_offset + regions[i].size
                    > u64::MAX,
        },
    decreases regions.len() - from,
{
    if from < regions.len() {
        law_exact_range_place(regions, range, from + 1);
    }
}

/// A search tries the regions in order, and each of them from the lowest place up. It ends for want of
/// space, or because of a region whose end is no address.
pub proof fn law_tries_in_order(
    regions: Seq<Region>,
    i: int,
    size: int,
    align: int,
    k: int,
    l: int,
)
    requires
        0 <= i,
        regions.len() <= usize::MAX,
        0 < size <= u64::MAX,
        0 < align <= u64::MAX,
        0 <= k < l < tries_from(regions, i, size, align).0.len(),
    ensures
        ({
            let tries = tries_from(regions, i, size, align).0;
            tries[k].region < tries[l].region || (tries[k].region == tries[l].region
                && tries[k].start < tries[l].start)
        }),
    decreases regions.len() - i,
{
    let region = regions[i];
    let first = first_address(regions, i, align);
    let here = region_tries(regions, i, first, size, align);
    lemma_tries_of_region(regions, i, size, align, l);
    lemma_tries_of_region(regions, i, size, align, k);
    if l < here.len() {
        lemma_align_up(region.base_offset as int, align);
        lemma_place_bounds(region, first, size, align, k);
        lemma_place_bounds(region, first, size, align, l);
        assert(k * align < l * align) by (nonlinear_arith)
            requires
                k < l,
                align > 0,
        ;
    } else if k >= here.len() {
        law_tries_in_order(regions, i + 1, size, align, k - here.len(), l - here.len());
    }
}

/// The tries from a region on are in that region first, and in later ones after that.
proof fn lemma_tries_of_region(regions: Seq<Region>, i: int, size: int, align: int, k: int)
    requires
        0 <= i,
        regions.len() <= usize::MAX,
        0 <= k < tries_from(regions, i, size, align).0.len(),
    ensures
        ({
            let here = region_tries(regions, i, first_address(regions, i, align), size, align);
            let tried = tries_from(regions, i, size, align).0[k];
            &&& i <= tried.region < regions.len()
            &&& k < here.len() ==> tried == here[k] && tried.region == i
            &&& k >= here.len() ==> tried.region > i
        }),
    decreases regions.len() - i,
{
    let here = region_tries(regions, i, first_address(regions, i, align), size, align);
    if k >= here.len() {
        lemma_tries_of_region(regions, i + 1, size, align, k - here.len());
    }
}

/// A search ends for want of space where every region ends at an address, and with an overflow where
/// one does not.
pub proof fn law_search_error(regions: Seq<Region>, i: int, size: int, align: int)
    requires
        0 <= i,
    ensures
        tries_from(regions, i, size, align).1 == if exists|j: int|
            i <= j < regions.len() && (#[trigger] regions[j]).base_offset + regions[j].size
                > u64::MAX {
            Error::EOVERFLOW
        } else {
            Error::ENOSPC
        },
    decreases regions.len() - i,
{
    if i < regions.len() {
        law_search_error(regions, i + 1, size, align);
    }
}

/// An allocator can be made over ranges of whole pages of which no two overlap.
pub proof fn law_allocatable(ranges: Seq<Range<u64>>, i: int, j: int)
    requires
        allocatable(ranges),
        0 <= i < j < ranges.len(),
    ensures
        ranges[i].start % 4096 == 0 && ranges[i].end % 4096 == 0,
        ranges[i].start < ranges[i].end,
        ranges[i].end <= ranges[j].start || ranges[j].end <= ranges[i].start,
{
    assert(is_fb_range(ranges[i]) && is_fb_range(ranges[j]));
    assert(!overlap(ranges[i], ranges[j]));
}

} // verus!
