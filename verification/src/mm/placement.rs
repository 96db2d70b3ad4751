//! Allocation of predefined ranges by placement ID.

use core::ops::Range;

use vstd::prelude::*;

use crate::error::Error;
use crate::mm::vram::{any_contains, AllocatorBacking};
use crate::mm::{
    apart, contains, is_fb_range, lies_in, overlap, ranges_overlap, validate_fb_range,
};

verus! {

/// Whether `ranges` can make a placement: there is at least one, all are non-empty and
/// 4-KiB-aligned, and no two overlap.
pub open spec fn placeable(ranges: Seq<Range<u64>>) -> bool {
    &&& ranges.len() > 0
    &&& forall|i: int| 0 <= i < ranges.len() ==> is_fb_range(#[trigger] ranges[i])
    &&& apart(ranges)
}

/// Whether a range of one placement overlaps a range of another.
pub open spec fn placements_overlap(left: Seq<Range<u64>>, right: Seq<Range<u64>>) -> bool {
    exists|i: int, j: int|
        0 <= i < left.len() && 0 <= j < right.len() && overlap(
            #[trigger] left[i],
            #[trigger] right[j],
        )
}

/// Returns whether one of `ranges`, from `from` on, overlaps `range`.
fn any_overlaps(ranges: &[Range<u64>], from: usize, range: &Range<u64>) -> (result: bool)
    requires
        from <= ranges@.len(),
    ensures
        result <==> exists|j: int|
            from <= j < ranges@.len() && overlap(*range, #[trigger] ranges@[j]),
{
    let total: usize = ranges.len();
    let mut j: usize = from;
    while j < total
        invariant
            from <= j <= total,
            total == ranges@.len(),
            forall|k: int| from <= k < j ==> !overlap(*range, #[trigger] ranges@[k]),
        decreases total - j,
    {
        if ranges_overlap(range, &ranges[j]) {
            assert(overlap(*range, ranges@[j as int]));
            return true;
        }
        j = j + 1;
    }
    false
}

/// Checks that `ranges` can make a placement.
pub fn validate_ranges(ranges: &[Range<u64>]) -> (result: Result<(), Error>)
    ensures
        result == if placeable(ranges@) {
            Ok::<(), Error>(())
        } else {
            Err(Error::EINVAL)
        },
{
    let total: usize = ranges.len();
    if total == 0 {
        return Err(Error::EINVAL);
    }
    let mut i: usize = 0;
    while i < total
        invariant
            i <= total,
            total == ranges@.len(),
            forall|k: int| 0 <= k < i ==> is_fb_range(#[trigger] ranges@[k]),
            forall|k: int, j: int|
                0 <= k < i && k < j < total ==> !overlap(
                    #[trigger] ranges@[k],
                    #[trigger] ranges@[j],
                ),
        decreases total - i,
    {
        match validate_fb_range(&ranges[i]) {
            Ok(_) => {},
            Err(error) => {
                assert(!is_fb_range(ranges@[i as int]));
                return Err(error);
            },
        }
        if any_overlaps(ranges, i + 1, &ranges[i]) {
            return Err(Error::EINVAL);
        }
        i = i + 1;
    }
    Ok(())
}

/// A predefined set of ranges and the number that it is known by.
pub struct PlacementEntry {
    pub id: u32,
    pub ranges: Vec<Range<u64>>,
}

impl PlacementEntry {
    /// Create a placement with at least one non-empty, 4-KiB-aligned range.
    ///
    /// The ranges must not overlap. The allocator checks that they are inside its backing when it
    /// is created.
    pub fn new(placement_id: u32, ranges: Vec<Range<u64>>) -> (entry: Result<Self, Error>)
        ensures
            entry == if placeable(ranges@) {
                Ok::<Self, Error>((PlacementEntry { id: placement_id, ranges }))
            } else {
                Err(Error::EINVAL)
            },
    {
        match validate_ranges(ranges.as_slice()) {
            Ok(_) => Ok(PlacementEntry { id: placement_id, ranges }),
            Err(error) => Err(error),
        }
    }

    /// Returns the number that the placement is known by.
    pub fn id(&self) -> (id: u32)
        ensures
            id == self.id,
    {
        self.id
    }

    /// Returns the number of ranges.
    pub fn range_count(&self) -> (count: usize)
        ensures
            count == self.ranges@.len(),
    {
        self.ranges.len()
    }

    /// Returns one of the ranges.
    pub fn range(&self, index: usize) -> (range: Option<&Range<u64>>)
        ensures
            match range {
                Some(range) => index < self.ranges@.len() && *range == self.ranges@[index as int],
                None => index >= self.ranges@.len(),
            },
    {
        if index < self.ranges.len() {
            Some(&self.ranges[index])
        } else {
            None
        }
    }

    /// Return whether this placement includes the full range.
    pub fn contains_range(&self, range: &Range<u64>) -> (result: bool)
        ensures
            result <==> range.start < range.end && exists|i: int|
                0 <= i < self.ranges@.len() && contains(#[trigger] self.ranges@[i], *range),
    {
        range.start < range.end && any_contains(self.ranges.as_slice(), range)
    }

    /// Returns whether a range of this placement overlaps a range of the other.
    fn overlaps(&self, other: &PlacementEntry) -> (result: bool)
        ensures
            result == placements_overlap(self.ranges@, other.ranges@),
    {
        let total: usize = self.ranges.len();
        let mut i: usize = 0;
        while i < total
            invariant
                i <= total,
                total == self.ranges@.len(),
                forall|k: int, j: int|
                    0 <= k < i && 0 <= j < other.ranges@.len() ==> !overlap(
                        #[trigger] self.ranges@[k],
                        #[trigger] other.ranges@[j],
                    ),
            decreases total - i,
        {
            if any_overlaps(other.ranges.as_slice(), 0, &self.ranges[i]) {
                let ghost j = choose|j: int|
                    0 <= j < other.ranges@.len() && overlap(
                        self.ranges@[i as int],
                        #[trigger] other.ranges@[j],
                    );
                assert(overlap(self.ranges@[i as int], other.ranges@[j]));
                return true;
            }
            i = i + 1;
        }
        false
    }
}

/// Checks that a placement can be made of its ranges, and that the backing includes them.
pub fn validate_map_entry(backing: &AllocatorBacking, entry: &PlacementEntry) -> (result: Result<
    (),
    Error,
>)
    ensures
        result == if !placeable(entry.ranges@) {
            Err::<(), Error>(Error::EINVAL)
        } else if exists|i: int|
            0 <= i < entry.ranges@.len() && !backing.includes(#[trigger] entry.ranges@[i]) {
            Err(Error::ERANGE)
        } else {
            Ok(())
        },
{
    match validate_ranges(entry.ranges.as_slice()) {
        Ok(_) => {},
        Err(error) => {
            return Err(error);
        },
    }
    let total: usize = entry.ranges.len();
    let mut i: usize = 0;
    while i < total
        invariant
            i <= total,
            total == entry.ranges@.len(),
            placeable(entry.ranges@),
            forall|k: int| 0 <= k < i ==> backing.includes(#[trigger] entry.ranges@[k]),
        decreases total - i,
    {
        if !backing.contains_range(&entry.ranges[i]) {
            assert(!backing.includes(entry.ranges@[i as int]));
            return Err(Error::ERANGE);
        }
        i = i + 1;
    }
    Ok(())
}

/// An allocator that selects predefined ranges by placement ID.
pub struct Placement {
    entries: Vec<PlacementEntry>,
    in_use: Vec<bool>,
}

/// What a placement allocator holds.
#[verifier::ext_equal]
pub struct PlacementState {
    /// The number and the ranges of each placement.
    pub entries: Seq<(u32, Seq<Range<u64>>)>,
    /// Which of them are in use.
    pub in_use: Seq<bool>,
}

impl PlacementState {
    /// Whether every placement has ranges of its own and a number of its own, and those in use do
    /// not overlap.
    pub open spec fn wf(self) -> bool {
        &&& self.in_use.len() == self.entries.len()
        &&& forall|i: int| 0 <= i < self.entries.len() ==> placeable((#[trigger] self.entries[i]).1)
        &&& forall|i: int, j: int|
            0 <= i < j < self.entries.len() ==> (#[trigger] self.entries[i]).0 != (
            #[trigger] self.entries[j]).0
        &&& forall|i: int, j: int|
            0 <= i < self.entries.len() && 0 <= j < self.entries.len() && i != j
                && #[trigger] self.in_use[i] && #[trigger] self.in_use[j] ==> !placements_overlap(
                self.entries[i].1,
                self.entries[j].1,
            )
    }

    /// Whether the placement at `index` overlaps one that is in use.
    pub open spec fn blocked(self, index: int) -> bool {
        exists|j: int|
            0 <= j < self.entries.len() && #[trigger] self.in_use[j] && placements_overlap(
                self.entries[index].1,
                self.entries[j].1,
            )
    }
}

/// The numbers and ranges of the entries.
pub open spec fn entry_values(entries: Seq<PlacementEntry>) -> Seq<(u32, Seq<Range<u64>>)> {
    entries.map_values(|entry: PlacementEntry| (entry.id, entry.ranges@))
}

/// What keeps the entries from making an allocator, from `i` on: the first of them whose ranges
/// are no placement or not in the backing, or whose number is taken.
pub open spec fn entries_error(
    backing: AllocatorBacking,
    entries: Seq<PlacementEntry>,
    i: int,
) -> Option<Error>
    decreases entries.len() - i,
{
    if i < 0 || i >= entries.len() {
        None
    } else if !placeable(entries[i].ranges@) {
        Some(Error::EINVAL)
    } else if exists|k: int|
        0 <= k < entries[i].ranges@.len() && !backing.includes(#[trigger] entries[i].ranges@[k]) {
        Some(Error::ERANGE)
    } else if exists|j: int| 0 <= j < i && (#[trigger] entries[j]).id == entries[i].id {
        Some(Error::EINVAL)
    } else {
        entries_error(backing, entries, i + 1)
    }
}

impl View for Placement {
    type V = PlacementState;

    closed spec fn view(&self) -> PlacementState {
        PlacementState { entries: entry_values(self.entries@), in_use: self.in_use@ }
    }
}

impl Placement {
    /// Whether what the allocator holds is well formed.
    #[verifier::type_invariant]
    pub open spec fn wf(self) -> bool {
        self@.wf()
    }

    /// Create an allocator over framebuffer ranges already reserved from a parent buddy allocator.
    pub fn new(backing: &AllocatorBacking, entries: Vec<PlacementEntry>) -> (allocator: Result<
        Self,
        Error,
    >)
        ensures
            match allocator {
                Ok(allocator) => {
                    &&& entries_error(*backing, entries@, 0) is None
                    &&& allocator@.entries == entry_values(entries@)
                    &&& allocator@.in_use == Seq::new(entries@.len(), |i: int| false)
                },
                Err(error) => entries_error(*backing, entries@, 0) == Some(error),
            },
    {
        let total: usize = entries.len();
        let mut in_use: Vec<bool> = Vec::new();
        let mut i: usize = 0;
        while i < total
            invariant
                i <= total,
                total == entries@.len(),
                entries_error(*backing, entries@, 0) == entries_error(
                    *backing,
                    entries@,
                    i as int,
                ),
                in_use@ == Seq::new(i as nat, |k: int| false),
                forall|k: int| 0 <= k < i ==> placeable((#[trigger] entries@[k]).ranges@),
                forall|k: int, j: int|
                    0 <= k < j < i ==> (#[trigger] entries@[k]).id != (#[trigger] entries@[j]).id,
            decreases total - i,
        {
            match validate_map_entry(backing, &entries[i]) {
                Ok(_) => {},
                Err(error) => {
                    return Err(error);
                },
            }
            let mut j: usize = 0;
            while j < i
                invariant
                    j <= i < total,
                    total == entries@.len(),
                    placeable(entries@[i as int].ranges@),
                    !(exists|k: int|
                        0 <= k < entries@[i as int].ranges@.len() && !backing.includes(
                            #[trigger] entries@[i as int].ranges@[k],
                        )),
                    entries_error(*backing, entries@, 0) == entries_error(
                        *backing,
                        entries@,
                        i as int,
                    ),
                    forall|k: int| 0 <= k < j ==> (#[trigger] entries@[k]).id != entries@[i as int].id,
                decreases i - j,
            {
                if entries[j].id == entries[i].id {
                    assert(entries@[j as int].id == entries@[i as int].id);
                    return Err(Error::EINVAL);
                }
                j = j + 1;
            }
            in_use.push(false);
            i = i + 1;
            assert(in_use@ =~= Seq::new(i as nat, |k: int| false));
        }
        Ok(Placement { entries, in_use })
    }

    /// Allocate the map entry identified by `placement_id`. Returns where it stands in the map.
    ///
    /// Allocation fails if its ranges overlap a placement that is already in use.
    pub fn allocate(&mut self, placement_id: u32) -> (index: Result<usize, Error>)
        ensures
            final(self)@.entries == old(self)@.entries,
            match index {
                Ok(index) => {
                    &&& index < old(self)@.entries.len()
                    &&& old(self)@.entries[index as int].0 == placement_id
                    &&& !old(self)@.blocked(index as int)
                    &&& final(self)@.in_use == old(self)@.in_use.update(index as int, true)
                },
                Err(error) => {
                    &&& final(self)@ == old(self)@
                    &&& (error == Error::ENOENT && forall|i: int|
                        0 <= i < old(self)@.entries.len() ==> (#[trigger] old(
                            self,
                        )@.entries[i]).0 != placement_id) || (error == Error::ENOSPC && exists|
                        i: int,
                    |
                        0 <= i < old(self)@.entries.len() && (#[trigger] old(self)@.entries[i]).0
                            == placement_id && old(self)@.blocked(i))
                },
            },
    {
        proof {
            use_type_invariant(&*self);
        }
        let ghost state = self@;
        let total: usize = self.entries.len();
        let mut index: usize = 0;
        while index < total && self.entries[index].id != placement_id
            invariant
                index <= total,
                total == self.entries@.len(),
                state == self@,
                state.wf(),
                *self == *old(self),
                forall|k: int| 0 <= k < index ==> (#[trigger] state.entries[k]).0 != placement_id,
            decreases total - index,
        {
            assert(state.entries[index as int].0 == self.entries@[index as int].id);
            index = index + 1;
        }
        if index == total {
            return Err(Error::ENOENT);
        }
        assert(state.entries[index as int].0 == placement_id);
        let mut i: usize = 0;
        while i < total
            invariant
                i <= total,
                index < total,
                total == self.entries@.len(),
                state == self@,
                state.wf(),
                *self == *old(self),
                state.entries[index as int].0 == placement_id,
                forall|k: int|
                    0 <= k < i && #[trigger] state.in_use[k] ==> !placements_overlap(
                        state.entries[index as int].1,
                        state.entries[k].1,
                    ),
            decreases total - i,
        {
            if self.in_use[i] && self.entries[index].overlaps(&self.entries[i]) {
                assert(state.in_use[i as int]);
                assert(state.blocked(index as int));
                return Err(Error::ENOSPC);
            }
            i = i + 1;
        }
        proof {
            let after = PlacementState {
                entries: state.entries,
                in_use: state.in_use.update(index as int, true),
            };
            assert forall|i: int, j: int|
                0 <= i < after.entries.len() && 0 <= j < after.entries.len() && i != j
                    && #[trigger] after.in_use[i]
                    && #[trigger] after.in_use[j] implies !placements_overlap(
                after.entries[i].1,
                after.entries[j].1,
            ) by {
                if i == index {
                    assert(state.in_use[j]);
                } else if j == index {
                    assert(state.in_use[i]);
                    lemma_overlap_symmetric(after.entries[i].1, after.entries[j].1);
                } else {
                    assert(state.in_use[i] && state.in_use[j]);
                }
            }
            assert(after.wf());
        }
        self.in_use[index] = true;
        Ok(index)
    }

    /// Free a placement after all VRAM regions using it have been dropped.
    ///
    /// `index` is where the placement stands in the map. `same_backing` and `same_entry` say whether
    /// it was allocated from this very allocator and map entry, and `unique` whether nothing else
    /// refers to it any more. On `EBUSY`, the placement stays in use and its memory is never reused.
    pub fn free(
        &mut self,
        index: usize,
        same_backing: bool,
        same_entry: bool,
        unique: bool,
    ) -> (result: Result<(), Error>)
        ensures
            final(self)@.entries == old(self)@.entries,
            ({
                let valid = index < old(self)@.entries.len() && same_backing && same_entry && old(
                    self,
                )@.in_use[index as int];
                if !valid {
                    result == Err::<(), Error>(Error::EINVAL) && final(self)@ == old(self)@
                } else if !unique {
                    result == Err::<(), Error>(Error::EBUSY) && final(self)@ == old(self)@
                } else {
                    result == Ok::<(), Error>(()) && final(self)@.in_use == old(
                        self,
                    )@.in_use.update(index as int, false)
                }
            }),
    {
        proof {
            use_type_invariant(&*self);
        }
        if index >= self.entries.len() || !same_backing || !same_entry || !self.in_use[index] {
            return Err(Error::EINVAL);
        }
        if !unique {
            return Err(Error::EBUSY);
        }
        proof {
            let state = self@;
            let after = PlacementState {
                entries: state.entries,
                in_use: state.in_use.update(index as int, false),
            };
            assert forall|i: int, j: int|
                0 <= i < after.entries.len() && 0 <= j < after.entries.len() && i != j
                    && #[trigger] after.in_use[i]
                    && #[trigger] after.in_use[j] implies !placements_overlap(
                after.entries[i].1,
                after.entries[j].1,
            ) by {
                assert(state.in_use[i] && state.in_use[j]);
            }
            assert(after.wf());
        }
        self.in_use[index] = false;
        Ok(())
    }

    /// Return whether no placement is in use.
    pub fn is_empty(&self) -> (empty: bool)
        ensures
            empty <==> forall|i: int| 0 <= i < self@.in_use.len() ==> !#[trigger] self@.in_use[i],
    {
        let total: usize = self.in_use.len();
        let mut i: usize = 0;
        while i < total
            invariant
                i <= total,
                total == self.in_use@.len(),
                forall|k: int| 0 <= k < i ==> !#[trigger] self@.in_use[k],
            decreases total - i,
        {
            if self.in_use[i] {
                assert(self@.in_use[i as int]);
                return false;
            }
            i = i + 1;
        }
        true
    }
}

/// Two placements that are in use at the same time share no address.
pub proof fn law_placements_in_use_are_apart(state: PlacementState, i: int, j: int, a: int)
    requires
        state.wf(),
        0 <= i < state.entries.len(),
        0 <= j < state.entries.len(),
        i != j,
        state.in_use[i],
        state.in_use[j],
    ensures
        !(in_placement(state.entries[i].1, a) && in_placement(state.entries[j].1, a)),
{
    let left = state.entries[i].1;
    let right = state.entries[j].1;
    if in_placement(left, a) && in_placement(right, a) {
        let k = choose|k: int| 0 <= k < left.len() && lies_in(a, #[trigger] left[k]);
        let l = choose|l: int| 0 <= l < right.len() && lies_in(a, #[trigger] right[l]);
        assert(overlap(left[k], right[l]));
    }
}

/// Whether the address `a` lies in one of `ranges`.
pub open spec fn in_placement(ranges: Seq<Range<u64>>, a: int) -> bool {
    exists|k: int| 0 <= k < ranges.len() && lies_in(a, #[trigger] ranges[k])
}

/// A placement that is in use cannot be allocated again.
pub proof fn law_in_use_is_blocked(state: PlacementState, index: int)
    requires
        state.wf(),
        0 <= index < state.entries.len(),
        state.in_use[index],
    ensures
        state.blocked(index),
{
    let ranges = state.entries[index].1;
    assert(overlap(ranges[0], ranges[0]));
    assert(placements_overlap(ranges, ranges));
}

/// Overlapping goes both ways.
proof fn lemma_overlap_symmetric(left: Seq<Range<u64>>, right: Seq<Range<u64>>)
    ensures
        placements_overlap(left, right) <==> placements_overlap(right, left),
{
    if placements_overlap(left, right) {
        let (i, j) = choose|i: int, j: int|
            0 <= i < left.len() && 0 <= j < right.len() && overlap(
                #[trigger] left[i],
                #[trigger] right[j],
            );
        assert(overlap(right[j], left[i]));
    }
    if placements_overlap(right, left) {
        let (i, j) = choose|i: int, j: int|
            0 <= i < right.len() && 0 <= j < left.len() && overlap(
                #[trigger] right[i],
                #[trigger] left[j],
            );
        assert(overlap(left[j], right[i]));
    }
}

/// The ranges of a placement: there is one at least, each of them is some whole pages, and no two of
/// them share an address.
pub proof fn law_placeable(ranges: Seq<Range<u64>>, i: int, j: int)
    requires
        0 <= i < j < ranges.len(),
    ensures
        !placeable(Seq::empty()),
        placeable(ranges) ==> {
            &&& ranges[i].start < ranges[i].end
            &&& ranges[i].start % 4096 == 0 && ranges[i].end % 4096 == 0
            &&& ranges[i].end <= ranges[j].start || ranges[j].end <= ranges[i].start
        },
{
    if placeable(ranges) {
        assert(is_fb_range(ranges[i]));
        assert(is_fb_range(ranges[j]));
        assert(!overlap(ranges[i], ranges[j]));
    }
}

/// Whole pages that lie in no other range make a placement.
pub proof fn law_one_range_is_placeable(range: Range<u64>)
    ensures
        placeable(seq![range]) <==> range.start < range.end && range.start % 4096 == 0 && range.end
            % 4096 == 0,
{
    if is_fb_range(range) {
        assert(seq![range][0] == range);
        assert(placeable(seq![range]));
    }
    if placeable(seq![range]) {
        assert(is_fb_range(seq![range][0]));
    }
}

/// Two placements overlap where some address lies in both.
pub proof fn law_placements_overlap(left: Seq<Range<u64>>, right: Seq<Range<u64>>)
    requires
        forall|i: int| 0 <= i < left.len() ==> (#[trigger] left[i]).start < left[i].end,
        forall|j: int| 0 <= j < right.len() ==> (#[trigger] right[j]).start < right[j].end,
    ensures
        placements_overlap(left, right) <==> exists|a: int| #[trigger]
            in_placement(left, a) && in_placement(right, a),
{
    if placements_overlap(left, right) {
        let (i, j) = choose|i: int, j: int|
            0 <= i < left.len() && 0 <= j < right.len() && overlap(
                #[trigger] left[i],
                #[trigger] right[j],
            );
        let a = if left[i].start <= right[j].start {
            right[j].start as int
        } else {
            left[i].start as int
        };
        assert(lies_in(a, left[i]) && lies_in(a, right[j]));
        assert(in_placement(left, a) && in_placement(right, a));
    }
    if exists|a: int| #[trigger] in_placement(left, a) && in_placement(right, a) {
        let a = choose|a: int| #[trigger] in_placement(left, a) && in_placement(right, a);
        let i = choose|i: int| 0 <= i < left.len() && lies_in(a, #[trigger] left[i]);
        let j = choose|j: int| 0 <= j < right.len() && lies_in(a, #[trigger] right[j]);
        assert(overlap(left[i], right[j]));
    }
}

/// A placement is blocked where one that is in use, which may be itself, shares an address with it.
pub proof fn law_blocked(state: PlacementState, index: int, j: int)
    requires
        state.wf(),
        0 <= index < state.entries.len(),
        0 <= j < state.entries.len(),
    ensures
        state.in_use[j] && placements_overlap(state.entries[index].1, state.entries[j].1)
            ==> state.blocked(index),
        (forall|k: int| 0 <= k < state.entries.len() ==> !#[trigger] state.in_use[k])
            ==> !state.blocked(index),
{
}

/// Entries make an allocator where each of them is a placement inside the backing and has a number
/// of its own. Each entry keeps its number and its ranges.
pub proof fn law_entries_accepted(
    backing: AllocatorBacking,
    entries: Seq<PlacementEntry>,
    from: int,
)
    requires
        0 <= from,
    ensures
        entries_error(backing, entries, from) is None <==> forall|i: int|
            from <= i < entries.len() ==> {
                &&& placeable((#[trigger] entries[i]).ranges@)
                &&& forall|k: int|
                    0 <= k < entries[i].ranges@.len() ==> backing.includes(
                        #[trigger] entries[i].ranges@[k],
                    )
                &&& forall|j: int| 0 <= j < i ==> (#[trigger] entries[j]).id != entries[i].id
            },
        entry_values(entries).len() == entries.len(),
        forall|i: int|
            0 <= i < entries.len() ==> (#[trigger] entry_values(entries)[i]).0 == entries[i].id
                && entry_values(entries)[i].1 == entries[i].ranges@,
    decreases entries.len() - from,
{
    if from < entries.len() {
        law_entries_accepted(backing, entries, from + 1);
    }
}

/// Entries that are all in order stay so with one more in front of them.
proof fn lemma_prefix_in_order(
    backing: AllocatorBacking,
    entries: Seq<PlacementEntry>,
    from: int,
    end: int,
)
    requires
        0 <= from < end <= entries.len(),
        placeable(entries[from].ranges@),
        forall|k: int|
            0 <= k < entries[from].ranges@.len() ==> backing.includes(
                #[trigger] entries[from].ranges@[k],
            ),
        forall|j: int| 0 <= j < from ==> (#[trigger] entries[j]).id != entries[from].id,
        entries_error(backing, entries.take(end), from + 1) is None,
    ensures
        entries_error(backing, entries.take(end), from) is None,
{
    let before = entries.take(end);
    assert(before[from] == entries[from]);
    assert forall|j: int| 0 <= j < from implies (#[trigger] before[j]).id != before[from].id by {
        assert(before[j] == entries[j]);
    }
    assert(entries_error(backing, before, from) == entries_error(backing, before, from + 1));
}

/// What keeps entries from making an allocator: the ranges of one are no placement or its number is
/// taken, which is invalid, or the ranges of one are not in the backing, which is out of range. It is
/// the first such entry that counts, and `at` is its place.
pub proof fn law_entry_refusals(
    backing: AllocatorBacking,
    entries: Seq<PlacementEntry>,
    from: int,
) -> (at: int)
    requires
        0 <= from,
    ensures
        entries_error(backing, entries, from) matches Some(error) ==> {
            &&& from <= at < entries.len()
            &&& entries_error(backing, entries.take(at), from) is None
            &&& error == Error::ERANGE || error == Error::EINVAL
            &&& error == Error::ERANGE <==> placeable(entries[at].ranges@) && exists|k: int|
                0 <= k < entries[at].ranges@.len() && !backing.includes(
                    #[trigger] entries[at].ranges@[k],
                )
            &&& error == Error::EINVAL ==> !placeable(entries[at].ranges@) || exists|j: int|
                0 <= j < at && (#[trigger] entries[j]).id == entries[at].id
        },
    decreases entries.len() - from,
{
    if from >= entries.len() {
        from
    } else if !placeable(entries[from].ranges@) || (exists|k: int|
        0 <= k < entries[from].ranges@.len() && !backing.includes(
            #[trigger] entries[from].ranges@[k],
        )) || (exists|j: int| 0 <= j < from && (#[trigger] entries[j]).id == entries[from].id) {
        assert(entries.take(from).len() == from);
        assert(entries_error(backing, entries.take(from), from) is None);
        from
    } else {
        assert(entries_error(backing, entries, from) == entries_error(backing, entries, from + 1));
        let at = law_entry_refusals(backing, entries, from + 1);
        if entries_error(backing, entries, from + 1) is Some {
            lemma_prefix_in_order(backing, entries, from, at);
        }
        at
    }
}

} // verus!
