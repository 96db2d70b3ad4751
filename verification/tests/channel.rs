//! Tests of the channel ID pool.

use nova_core::error::Error;
use nova_core::gpu::channel::ChannelIdPool;

#[test]
fn chid_reservation() {
    let mut pool = ChannelIdPool::new(2048);

    let first = pool.reserve_ids(48, 1).unwrap();
    assert_eq!(0, first.range.start);
    assert_eq!(48, first.range.len());
    assert_eq!(48, first.range.end);

    let second = pool.reserve_ids(48, 1).unwrap();
    assert!(first.range.end <= second.range.start || second.range.end <= first.range.start);

    let first_start = first.range.start;
    pool.release(first);
    assert_eq!(first_start, pool.reserve_ids(48, 1).unwrap().range.start);
}

#[test]
fn chid_reservation_drop() {
    let mut pool = ChannelIdPool::new(8);

    let a = pool.reserve_ids(3, 1).unwrap();
    let b = pool.reserve_ids(3, 1).unwrap();
    let c = pool.reserve_ids(2, 1).unwrap();
    assert_eq!(0, a.range.start);
    assert_eq!(3, b.range.start);
    assert_eq!(6, c.range.start);

    pool.release(b);

    // Only have space for 3 IDs right now.
    assert_eq!(Err(Error::ENOSPC), pool.reserve_ids(4, 1).map(|_| ()));
    let b = pool.reserve_ids(3, 1).unwrap();
    assert_eq!(3, b.range.start);

    pool.release(a);
    pool.release(c);
    pool.release(b);

    // Everything was dropped so the pool should be empty.
    assert_eq!(0, pool.reserve_ids(8, 1).unwrap().range.start);
}

#[test]
fn chid_bounded_by_num_chids() {
    let mut pool = ChannelIdPool::new(4);

    {
        let a = pool.reserve_ids(1, 1).unwrap();
        let b = pool.reserve_ids(1, 1).unwrap();
        let c = pool.reserve_ids(1, 1).unwrap();
        let d = pool.reserve_ids(1, 1).unwrap();
        assert_eq!(0, a.range.start);
        assert_eq!(1, b.range.start);
        assert_eq!(2, c.range.start);
        assert_eq!(3, d.range.start);
        assert_eq!(Err(Error::ENOSPC), pool.reserve_ids(1, 1).map(|_| ()));
        pool.release(d);
        pool.release(c);
        pool.release(b);
        pool.release(a);
    }

    let all = pool.reserve_ids(4, 1).unwrap();
    assert_eq!(0, all.range.start);
    pool.release(all);
    assert_eq!(Err(Error::ENOSPC), pool.reserve_ids(5, 1).map(|_| ()));

    let head = pool.reserve_ids(3, 1).unwrap();
    assert_eq!(0, head.range.start);
    assert_eq!(Err(Error::ENOSPC), pool.reserve_ids(2, 1).map(|_| ()));
    assert_eq!(3, pool.reserve_ids(1, 1).unwrap().range.start);
}

#[test]
fn chid_reservation_aligned() {
    let mut pool = ChannelIdPool::new(16);

    // Alloc 0 so the first fit for the next area is unaligned.
    let pad = pool.reserve_ids(1, 1).unwrap();
    assert_eq!(0, pad.range.start);

    let a = pool.reserve_ids(4, 4).unwrap();
    assert_eq!(4, a.range.start);

    // The area skipped over by the aligned allocation should still be available.
    let b = pool.reserve_ids(1, 1).unwrap();
    assert_eq!(1, b.range.start);

    let c = pool.reserve_ids(8, 8).unwrap();
    assert_eq!(8, c.range.start);

    // Only 2 IDs left.
    assert_eq!(Err(Error::ENOSPC), pool.reserve_ids(4, 4).map(|_| ()));
    assert_eq!(Err(Error::ENOSPC), pool.reserve_ids(1, 32).map(|_| ()));

    assert_eq!(2, pool.reserve_ids(2, 1).unwrap().range.start);
}
