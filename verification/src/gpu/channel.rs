//! Channel ID allocation.

use core::ops::Range;

use vstd::prelude::*;

use crate::error::Error;

verus! {

/// Total channel ID capacity available to vGPU instances.
pub const TOTAL_CHANNELS: u32 = 2048;

/// Whether the `count` IDs from `start` on are all in the pool and not reserved.
pub open spec fn is_free_area(reserved: Seq<bool>, start: int, count: int) -> bool {
    &&& 0 <= start
    &&& start + count <= reserved.len()
    &&& forall|id: int| start <= id < start + count ==> !#[trigger] reserved[id]
}

/// `reserved` with the IDs from `start` up to `end` set to `value`.
pub open spec fn with_area(reserved: Seq<bool>, start: int, end: int, value: bool) -> Seq<bool> {
    Seq::new(
        reserved.len(),
        |id: int|
            if start <= id < end {
                value
            } else {
                reserved[id]
            },
    )
}

/// Pool for tracking reservations of channel IDs. It stands for which of the IDs are reserved.
pub struct ChannelIdPool {
    reserved: Vec<bool>,
}

impl View for ChannelIdPool {
    type V = Seq<bool>;

    closed spec fn view(&self) -> Seq<bool> {
        self.reserved@
    }
}

/// A reserved contiguous area of channel IDs.
///
/// It has to be handed back to [`ChannelIdPool::release`] for its IDs to be reserved again.
#[derive(Debug)]
pub struct ChannelIdReservation {
    pub range: Range<usize>,
}

impl core::ops::Deref for ChannelIdReservation {
    type Target = Range<usize>;

    fn deref(&self) -> (range: &Range<usize>)
        ensures
            *range == self.range,
    {
        &self.range
    }
}

impl ChannelIdPool {
    /// Creates a pool managing `num_chids` channel IDs.
    pub fn new(num_chids: usize) -> (pool: Self)
        requires
            num_chids > 0,
        ensures
            pool@ == Seq::new(num_chids as nat, |id: int| false),
    {
        let mut reserved: Vec<bool> = Vec::new();
        let mut id: usize = 0;
        while id < num_chids
            invariant
                id <= num_chids,
                reserved@ == Seq::new(id as nat, |id: int| false),
            decreases num_chids - id,
        {
            reserved.push(false);
            id = id + 1;
            assert(reserved@ =~= Seq::new(id as nat, |id: int| false));
        }
        ChannelIdPool { reserved }
    }

    /// Returns the first reserved ID of the area from `start` up to `end`, if there is one.
    fn next_reserved(&self, start: usize, end: usize) -> (found: Option<usize>)
        requires
            start <= end <= self@.len(),
        ensures
            match found {
                Some(id) => start <= id < end && self@[id as int],
                None => is_free_area(self@, start as int, end - start),
            },
    {
        let mut id: usize = start;
        while id < end
            invariant
                start <= id <= end <= self@.len(),
                forall|i: int| start <= i < id ==> !#[trigger] self@[i],
            decreases end - id,
        {
            if self.reserved[id] {
                return Some(id);
            }
            id = id + 1;
        }
        None
    }

    /// Sets the IDs from `start` up to `end` to `value`.
    fn set_area(&mut self, start: usize, end: usize, value: bool)
        requires
            start <= end <= old(self)@.len(),
        ensures
            final(self)@ == with_area(old(self)@, start as int, end as int, value),
    {
        let ghost before = self@;
        let mut id: usize = start;
        assert(before =~= with_area(before, start as int, start as int, value));
        while id < end
            invariant
                start <= id <= end <= before.len(),
                self@ == with_area(before, start as int, id as int, value),
            decreases end - id,
        {
            self.reserved[id] = value;
            id = id + 1;
            assert(self@ =~= with_area(before, start as int, id as int, value));
        }
    }

    /// Reserves a contiguous area of `count` channel IDs starting at a multiple of `align`. It is
    /// the lowest one that is free.
    pub fn reserve_ids(&mut self, count: usize, align: usize) -> (result: Result<
        ChannelIdReservation,
        Error,
    >)
        requires
            count > 0,
            align > 0,
        ensures
            match result {
                Ok(reservation) => {
                    let start = reservation.range.start as int;
                    &&& reservation.range.end == start + count
                    &&& start % align as int == 0
                    &&& is_free_area(old(self)@, start, count as int)
                    &&& forall|lower: int|
                        0 <= lower < start && lower % align as int == 0 ==> !is_free_area(
                            old(self)@,
                            lower,
                            count as int,
                        )
                    &&& final(self)@ == with_area(old(self)@, start, start + count, true)
                },
                Err(error) => {
                    &&& error == Error::ENOSPC
                    &&& final(self)@ == old(self)@
                    &&& forall|start: int|
                        start % align as int == 0 ==> !is_free_area(
                            old(self)@,
                            start,
                            count as int,
                        )
                },
            },
    {
        let ghost before = self@;
        let total: usize = self.reserved.len();
        if count > total {
            return Err(Error::ENOSPC);
        }
        let last: usize = total - count;
        let mut start: usize = 0;
        loop
            invariant
                self@ == before,
                before == old(self)@,
                total == before.len(),
                0 < count <= total,
                align > 0,
                last == total - count,
                start % align == 0,
                start <= last,
                forall|lower: int|
                    0 <= lower < start && lower % align as int == 0 ==> !is_free_area(
                        before,
                        lower,
                        count as int,
                    ),
            decreases last - start,
        {
            match self.next_reserved(start, start + count) {
                None => {
                    self.set_area(start, start + count, true);
                    return Ok(
                        ChannelIdReservation { range: Range { start, end: start + count } },
                    );
                },
                Some(id) => {
                    proof {
                        assert(before[id as int]);
                        assert(!is_free_area(before, start as int, count as int));
                        assert forall|lower: int|
                            0 <= lower < start + align && lower % align as int
                                == 0 implies !is_free_area(before, lower, count as int) by {
                            if lower > start {
                                lemma_no_multiple_between(start as int, lower, align as int);
                            }
                        }
                    }
                    if align > last - start {
                        proof {
                            assert forall|lower: int|
                                lower % align as int == 0 implies !is_free_area(
                                before,
                                lower,
                                count as int,
                            ) by {}
                        }
                        return Err(Error::ENOSPC);
                    }
                    proof {
                        lemma_next_multiple(start as int, align as int);
                    }
                    start = start + align;
                },
            }
        }
    }

    /// Releases the whole area of a reservation.
    pub fn release(&mut self, reservation: ChannelIdReservation)
        requires
            reservation.range.start <= reservation.range.end <= old(self)@.len(),
        ensures
            final(self)@ == with_area(
                old(self)@,
                reservation.range.start as int,
                reservation.range.end as int,
                false,
            ),
    {
        self.set_area(reservation.range.start, reservation.range.end, false);
    }
}

/// Between a multiple of `align` and the next lies no other.
proof fn lemma_no_multiple_between(start: int, other: int, align: int)
    by (nonlinear_arith)
    requires
        align > 0,
        start % align == 0,
        start < other < start + align,
    ensures
        other % align != 0,
{
    if other % align == 0 {
        assert(other == align * (other / align));
        assert(start == align * (start / align));
        let quotients = other / align - start / align;
        assert(other - start == align * quotients);
        assert(quotients >= 1 || quotients <= 0);
    }
}

/// A multiple of `align` and `align` make a multiple.
proof fn lemma_next_multiple(start: int, align: int)
    requires
        align > 0,
        start % align == 0,
    ensures
        (start + align) % align == 0,
{
    vstd::arithmetic::div_mod::lemma_mod_add_multiples_vanish(start, align);
}

/// Two areas that are reserved one after the other, with nothing released in between, share no ID.
pub proof fn law_reservations_disjoint(
    reserved: Seq<bool>,
    first: int,
    first_count: int,
    second: int,
    second_count: int,
)
    requires
        is_free_area(reserved, first, first_count),
        first_count > 0,
        second_count > 0,
        is_free_area(
            with_area(reserved, first, first + first_count, true),
            second,
            second_count,
        ),
    ensures
        first + first_count <= second || second + second_count <= first,
{
    let after = with_area(reserved, first, first + first_count, true);
    if first < second + second_count && second < first + first_count {
        let shared = if first <= second {
            second
        } else {
            first
        };
        assert(after[shared]);
    }
}

/// Releasing an area right after reserving it leaves the pool as it was.
pub proof fn law_release_undoes_reserve(reserved: Seq<bool>, start: int, count: int)
    requires
        count > 0,
        is_free_area(reserved, start, count),
    ensures
        with_area(
            with_area(reserved, start, start + count, true),
            start,
            start + count,
            false,
        ) == reserved,
{
    assert(with_area(
        with_area(reserved, start, start + count, true),
        start,
        start + count,
        false,
    ) =~= reserved);
}

/// An area is free again once it has been released, whatever was reserved or released meanwhile.
pub proof fn law_released_area_is_free(reserved: Seq<bool>, start: int, end: int)
    requires
        0 <= start <= end <= reserved.len(),
    ensures
        is_free_area(with_area(reserved, start, end, false), start, end - start),
{
}

/// An area is free where it lies in the pool and none of its IDs is reserved, and setting an area
/// changes the IDs in it and no others.
pub proof fn law_areas(reserved: Seq<bool>, start: int, end: int, value: bool, id: int)
    requires
        0 <= id < reserved.len(),
    ensures
        is_free_area(reserved, start, end - start) && start <= id < end ==> !reserved[id] && 0
            <= start && end <= reserved.len(),
        with_area(reserved, start, end, value).len() == reserved.len(),
        with_area(reserved, start, end, value)[id] == (if start <= id && id < end {
            value
        } else {
            reserved[id]
        }),
        is_free_area(reserved, id, 1) <==> !reserved[id],
{
    if !reserved[id] {
        assert(is_free_area(reserved, id, 1));
    }
}

} // verus!
