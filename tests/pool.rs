use compio_ops::{
    Asyncify, BorrowedBuffer, BufferPool, Error, OpEntry, ReadManagedAt, ReadManagedAtFallback,
    RecvManaged, RecvManagedFallback, Region, SlotState, Sqe,
};

fn flags_for(slot: u16) -> u32 {
    ((slot as u32) << 16) | 1
}

#[test]
fn managed_new_checks_length() {
    let pool = BufferPool::new(7, 4, 4096);
    let op = ReadManagedAt::new(3, 100, &pool, 4096).unwrap();
    assert_eq!(
        op.create_entry(),
        OpEntry::Submission(Sqe::Read {
            fd: 3,
            buf: Region::Nothing,
            len: 4096,
            offset: 100,
            buf_group: Some(7)
        })
    );
    assert!(matches!(ReadManagedAt::new(3, 0, &pool, 4097), Err(Error::InvalidInput)));
    assert!(matches!(RecvManaged::new(3, &pool, 5000), Err(Error::InvalidInput)));
    let big = BufferPool::new(1, 1, usize::MAX);
    assert!(matches!(RecvManaged::new(3, &big, (u32::MAX as usize) + 1), Err(Error::InvalidInput)));
    let recv = RecvManaged::new(3, &pool, 10).unwrap();
    assert_eq!(
        recv.create_entry(),
        OpEntry::Submission(Sqe::Read {
            fd: 3,
            buf: Region::Nothing,
            len: 10,
            offset: 0,
            buf_group: Some(7)
        })
    );
}

#[test]
fn failed_read_returns_slot_and_error() {
    let mut pool = BufferPool::new(1, 1, 64);
    let mut op = ReadManagedAt::new(3, 0, &pool, 64).unwrap();
    assert_eq!(op.slot, None);
    assert_eq!(op.reserve_slot(&mut pool), Some(0));
    assert_eq!(op.slot, Some(0));
    assert_eq!(pool.reserve(), None);
    // the kernel reports no slot on failure: the flags carry none
    let r = op.take_buffer(&mut pool, Err(Error::Os(5)), 0);
    assert_eq!(r, Err(Error::Os(5)));
    assert_eq!(pool.state(0), Some(SlotState::Free));
    // the pool of one slot is not used up: the next request of the same size succeeds
    let mut next = ReadManagedAt::new(3, 0, &pool, 64).unwrap();
    assert_eq!(next.reserve_slot(&mut pool), Some(0));
    let r = next.take_buffer(&mut pool, Ok(64), flags_for(0));
    assert_eq!(r, Ok(BorrowedBuffer { slot: 0, len: 64 }));
}

#[test]
fn failed_recv_without_reservation_changes_nothing() {
    let mut pool = BufferPool::new(1, 2, 64);
    pool.reserve().unwrap();
    let op = RecvManaged::new(3, &pool, 64).unwrap();
    assert_eq!(op.take_buffer(&mut pool, Err(Error::Os(104)), flags_for(0)), Err(Error::Os(104)));
    assert_eq!(pool.state(0), Some(SlotState::Reserved));
}

#[test]
fn fallback_reads_into_owned_buffer() {
    let pool = BufferPool::new(7, 4, 64);
    let op = ReadManagedAtFallback::new(3, 12, &pool, 64).unwrap();
    assert_eq!(
        op.create_entry(),
        OpEntry::Submission(Sqe::Read {
            fd: 3,
            buf: Region::Buffer,
            len: 64,
            offset: 12,
            buf_group: None
        })
    );
    assert_eq!(op.take_buffer(Ok(10)), Ok(vec![0u8; 10]));
    assert!(matches!(ReadManagedAtFallback::new(3, 0, &pool, 65), Err(Error::InvalidInput)));
    let recv = RecvManagedFallback::new(3, &pool, 8).unwrap();
    assert_eq!(
        recv.create_entry(),
        OpEntry::Submission(Sqe::Read {
            fd: 3,
            buf: Region::Buffer,
            len: 8,
            offset: 0,
            buf_group: None
        })
    );
    assert_eq!(recv.take_buffer(Err(Error::Os(11))), Err(Error::Os(11)));
    let recv = RecvManagedFallback::new(3, &pool, 8).unwrap();
    assert_eq!(recv.take_buffer(Ok(9)), Err(Error::InvalidBuffer));
}

#[test]
fn successful_read_lends_named_slot() {
    let mut pool = BufferPool::new(2, 8, 64);
    for _ in 0..4 {
        pool.reserve().unwrap();
    }
    let op = RecvManaged::new(3, &pool, 64).unwrap();
    let r = op.take_buffer(&mut pool, Ok(37), flags_for(3));
    assert_eq!(r, Ok(BorrowedBuffer { slot: 3, len: 37 }));
    assert_eq!(pool.state(3), Some(SlotState::Lent));
    assert_eq!(pool.state(2), Some(SlotState::Reserved));
    pool.release(r.unwrap());
    assert_eq!(pool.state(3), Some(SlotState::Free));
}

#[test]
fn completion_without_slot_is_invalid() {
    let mut pool = BufferPool::new(2, 2, 64);
    pool.reserve().unwrap();
    let op = RecvManaged::new(3, &pool, 64).unwrap();
    // flags with the buffer bit clear
    assert_eq!(op.take_buffer(&mut pool, Ok(1), 0), Err(Error::InvalidBuffer));
    assert_eq!(pool.state(0), Some(SlotState::Reserved));
    let op = RecvManaged::new(3, &pool, 64).unwrap();
    // a slot that is free was not picked by the kernel
    assert_eq!(op.take_buffer(&mut pool, Ok(1), flags_for(1)), Err(Error::InvalidBuffer));
    let op = RecvManaged::new(3, &pool, 64).unwrap();
    assert_eq!(op.take_buffer(&mut pool, Ok(65), flags_for(0)), Err(Error::InvalidBuffer));
}

#[test]
fn reuse_without_named_slot_changes_nothing() {
    let mut pool = BufferPool::new(2, 2, 64);
    pool.reserve().unwrap();
    pool.reuse_buffer(0);
    assert_eq!(pool.state(0), Some(SlotState::Reserved));
    pool.reuse_buffer(flags_for(9));
    assert_eq!(pool.state(0), Some(SlotState::Reserved));
    assert_eq!(pool.buffer_group(), 2);
    assert_eq!(pool.slot_len(), 64);
    assert_eq!(pool.slot_count(), 2);
}

#[test]
fn blocking_closure_runs_once() {
    let runs = std::cell::Cell::new(0u32);
    let mut op = Asyncify::new(|| {
        runs.set(runs.get() + 1);
        (Ok::<usize, Error>(42), "side")
    });
    assert_eq!(op.create_entry(), OpEntry::Blocking);
    assert_eq!(op.call_blocking(), Ok(Ok(42)));
    assert_eq!(op.call_blocking(), Err(Error::AlreadyUsed));
    assert_eq!(runs.get(), 1);
    assert_eq!(op.into_inner(), Some("side"));
}

#[test]
fn blocking_closure_error_is_passed_on() {
    let mut op = Asyncify::new(|| {
        let r: std::io::Result<usize> = Err(std::io::Error::other("closure failed"));
        (r, 7u8)
    });
    match op.call_blocking() {
        Ok(Err(e)) => {
            assert_eq!(e.kind(), std::io::ErrorKind::Other);
            assert_eq!(e.to_string(), "closure failed");
        }
        _ => panic!("the closure's own error should come back"),
    }
    assert_eq!(op.data, Some(7));
}
