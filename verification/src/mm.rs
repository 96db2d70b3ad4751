//! Memory management.

pub mod addr;
pub mod bar_user;
pub mod buddy;
pub mod pagetable;
pub mod placement;
pub mod pramin;
pub mod tlb;
pub mod vmm;
pub mod vram;

use core::ops::Range;

use vstd::prelude::*;

use crate::error::Error;

verus! {

/// Page size in bytes (4 KiB).
pub const PAGE_SIZE: usize = 4096;

/// Whether a range holds at least one whole page and nothing but whole pages.
pub open spec fn is_fb_range(range: Range<u64>) -> bool {
    &&& range.start < range.end
    &&& range.start % 4096 == 0
    &&& range.end % 4096 == 0
}

/// Whether `outer` includes all of `inner`.
pub open spec fn contains(outer: Range<u64>, inner: Range<u64>) -> bool {
    outer.start <= inner.start && inner.end <= outer.end
}

/// Whether two ranges that are not empty share an address.
pub open spec fn overlap(left: Range<u64>, right: Range<u64>) -> bool {
    left.start < right.end && right.start < left.end
}

/// Whether the address `a` lies in `range`.
pub open spec fn lies_in(a: int, range: Range<u64>) -> bool {
    range.start <= a < range.end
}

/// Whether no two of the ranges overlap.
pub open spec fn apart(ranges: Seq<Range<u64>>) -> bool {
    forall|i: int, j: int|
        0 <= i < j < ranges.len() ==> !overlap(#[trigger] ranges[i], #[trigger] ranges[j])
}

/// Checks that a range holds at least one whole page and nothing but whole pages.
pub fn validate_fb_range(range: &Range<u64>) -> (result: Result<(), Error>)
    ensures
        result == if is_fb_range(*range) {
            Ok::<(), Error>(())
        } else {
            Err(Error::EINVAL)
        },
{
    if range.start >= range.end || range.start % 4096 != 0 || range.end % 4096 != 0 {
        return Err(Error::EINVAL);
    }
    Ok(())
}

/// Returns whether `outer` includes all of `inner`.
pub fn range_contains(outer: &Range<u64>, inner: &Range<u64>) -> (result: bool)
    ensures
        result == contains(*outer, *inner),
{
    outer.start <= inner.start && inner.end <= outer.end
}

/// Returns whether two ranges that are not empty share an address.
pub fn ranges_overlap(left: &Range<u64>, right: &Range<u64>) -> (result: bool)
    ensures
        result == overlap(*left, *right),
{
    left.start < right.end && right.start < left.end
}

/// Two ranges that are not empty overlap if and only if some address lies in both.
pub proof fn law_overlap_is_shared_address(left: Range<u64>, right: Range<u64>)
    requires
        left.start < left.end,
        right.start < right.end,
    ensures
        overlap(left, right) <==> exists|a: int| #[trigger] lies_in(a, left) && lies_in(a, right),
{
    if overlap(left, right) {
        let a = if left.start <= right.start {
            right.start as int
        } else {
            left.start as int
        };
        assert(lies_in(a, left) && lies_in(a, right));
    }
}

/// Whether `chosen` is the end of the smallest usable range that `size` fits in, and of the highest of
/// those if there are several.
pub open spec fn is_internal_choice(
    usable: Seq<Range<u64>>,
    size: u64,
    chosen: Range<u64>,
) -> bool {
    exists|i: int|
        {
            &&& 0 <= i < usable.len()
            &&& size <= (#[trigger] usable[i]).end - usable[i].start
            &&& chosen.end == usable[i].end
            &&& chosen.start == usable[i].end - size
            &&& forall|j: int|
                0 <= j < usable.len() && size <= (#[trigger] usable[j]).end - usable[j].start ==> {
                    ||| usable[i].end - usable[i].start < usable[j].end - usable[j].start
                    ||| usable[i].end - usable[i].start == usable[j].end - usable[j].start
                        && usable[j].end <= usable[i].end
                }
        }
}

/// Choose the internal range from the smallest usable range that fits, and from the highest of
/// those if there are several.
///
/// Memory is taken from the end to leave the start available for larger workload reservations.
pub fn select_internal_fb_range(usable_fb_regions: &[Range<u64>], size: u64) -> (result: Result<
    Range<u64>,
    Error,
>)
    ensures
        match result {
            Ok(chosen) => {
                &&& size > 0 && size % 4096 == 0
                &&& forall|i: int|
                    0 <= i < usable_fb_regions@.len() ==> is_fb_range(
                        #[trigger] usable_fb_regions@[i],
                    )
                &&& is_internal_choice(usable_fb_regions@, size, chosen)
            },
            Err(Error::ENOSPC) => {
                &&& size > 0 && size % 4096 == 0
                &&& forall|i: int|
                    0 <= i < usable_fb_regions@.len() ==> is_fb_range(
                        #[trigger] usable_fb_regions@[i],
                    ) && usable_fb_regions@[i].end - usable_fb_regions@[i].start < size
            },
            Err(error) => {
                &&& error == Error::EINVAL
                &&& size == 0 || size % 4096 != 0 || exists|i: int|
                    0 <= i < usable_fb_regions@.len() && !is_fb_range(
                        #[trigger] usable_fb_regions@[i],
                    )
            },
        },
{
    if size == 0 || size % 4096 != 0 {
        return Err(Error::EINVAL);
    }
    let ghost usable = usable_fb_regions@;
    let total: usize = usable_fb_regions.len();
    let mut selected: Option<(u64, Range<u64>)> = None;
    let ghost mut at: int = 0;
    let mut i: usize = 0;
    while i < total
        invariant
            i <= total,
            total == usable.len(),
            usable == usable_fb_regions@,
            forall|j: int| 0 <= j < i ==> is_fb_range(#[trigger] usable[j]),
            selected is None ==> forall|j: int|
                0 <= j < i ==> (#[trigger] usable[j]).end - usable[j].start < size,
            selected matches Some((best, range)) ==> {
                &&& 0 <= at < i
                &&& best == usable[at].end - usable[at].start
                &&& size <= best
                &&& range.end == usable[at].end
                &&& range.start == usable[at].end - size
                &&& forall|j: int|
                    0 <= j < i && size <= (#[trigger] usable[j]).end - usable[j].start ==> {
                        ||| best < usable[j].end - usable[j].start
                        ||| best == usable[j].end - usable[j].start && usable[j].end
                            <= usable[at].end
                    }
            },
        decreases total - i,
    {
        let region = &usable_fb_regions[i];
        match validate_fb_range(region) {
            Ok(_) => {},
            Err(error) => {
                assert(!is_fb_range(usable[i as int]));
                return Err(error);
            },
        }
        let usable_size: u64 = region.end - region.start;
        if usable_size >= size {
            let better = match &selected {
                Some((best_size, best_range)) => !(*best_size < usable_size || (*best_size
                    == usable_size && best_range.end >= region.end)),
                None => true,
            };
            if better {
                selected = Some((usable_size, Range { start: region.end - size, end: region.end }));
                proof {
                    at = i as int;
                }
            }
        }
        i = i + 1;
    }
    match selected {
        Some((_, range)) => {
            assert(usable[at].end == range.end);
            Ok(range)
        },
        None => Err(Error::ENOSPC),
    }
}

/// The range chosen for internal use lies in one of the usable ranges, has the size asked for and
/// is made of whole pages.
pub proof fn law_internal_choice_usable(usable: Seq<Range<u64>>, size: u64, chosen: Range<u64>)
    requires
        is_internal_choice(usable, size, chosen),
        size > 0,
        size % 4096 == 0,
        forall|i: int| 0 <= i < usable.len() ==> is_fb_range(#[trigger] usable[i]),
    ensures
        is_fb_range(chosen),
        chosen.end - chosen.start == size,
        exists|i: int| 0 <= i < usable.len() && contains(#[trigger] usable[i], chosen),
{
    let i = choose|i: int|
        0 <= i < usable.len() && size <= (#[trigger] usable[i]).end - usable[i].start && chosen.end
            == usable[i].end && chosen.start == usable[i].end - size;
    assert(contains(usable[i], chosen));
}

/// A range is one that memory can be allocated from where it is some whole pages, one after the other.
pub proof fn law_whole_pages(first: u64, count: u64, offset: u64)
    requires
        (first + count + 1) * 4096 <= u64::MAX,
        0 < offset < 4096,
    ensures
        is_fb_range(Range { start: (first * 4096) as u64, end: ((first + count) * 4096) as u64 })
            <==> count > 0,
        !is_fb_range(
            Range { start: (first * 4096 + offset) as u64, end: ((first + count) * 4096) as u64 },
        ),
        !is_fb_range(
            Range { start: (first * 4096) as u64, end: ((first + count) * 4096 + offset) as u64 },
        ),
{
}

/// A range includes another that is not empty where every address in the other lies in it.
pub proof fn law_containment(outer: Range<u64>, inner: Range<u64>)
    requires
        inner.start < inner.end,
    ensures
        contains(outer, inner) <==> forall|a: int| #[trigger]
            lies_in(a, inner) ==> outer.start <= a < outer.end,
{
    if forall|a: int| #[trigger] lies_in(a, inner) ==> outer.start <= a < outer.end {
        assert(lies_in(inner.start as int, inner));
        assert(lies_in(inner.end - 1, inner));
    }
}

/// An address lies in a range from its start on and below its end.
pub proof fn law_lies_in(a: int, range: Range<u64>)
    ensures
        lies_in(a, range) <==> range.start <= a && a < range.end,
{
}

/// Ranges are apart where no two of them overlap, and overlapping goes both ways.
pub proof fn law_apart(ranges: Seq<Range<u64>>, i: int, j: int)
    requires
        0 <= i < ranges.len(),
        0 <= j < ranges.len(),
        i != j,
    ensures
        apart(ranges) ==> ranges[i].end <= ranges[j].start || ranges[j].end <= ranges[i].start,
        overlap(ranges[i], ranges[j]) ==> !apart(ranges),
        overlap(ranges[i], ranges[j]) == overlap(ranges[j], ranges[i]),
{
    if i < j {
        assert(apart(ranges) ==> !overlap(ranges[i], ranges[j]));
    } else {
        assert(apart(ranges) ==> !overlap(ranges[j], ranges[i]));
    }
}

/// The range chosen for internal use is at the end of a usable range, and no usable range that fits is
/// smaller, or of the same size and higher.
pub proof fn law_internal_choice_is_tightest(
    usable: Seq<Range<u64>>,
    size: u64,
    chosen: Range<u64>,
    j: int,
)
    requires
        is_internal_choice(usable, size, chosen),
        0 <= j < usable.len(),
        size <= usable[j].end - usable[j].start,
    ensures
        chosen.end - chosen.start == size,
        exists|i: int|
            0 <= i < usable.len() && (#[trigger] usable[i]).end == chosen.end && usable[i].start
                <= chosen.start && usable[i].end - usable[i].start <= usable[j].end
                - usable[j].start && (usable[i].end - usable[i].start == usable[j].end
                - usable[j].start ==> usable[j].end <= chosen.end),
{
}

} // verus!
