use core::sync::atomic::Ordering;
use qrwlock::raw::RawRwLock;
use qrwlock::state::{MAX_READERS, READER_COUNT, WRITER_LOCKED, WRITER_WAITING};

#[test]
fn qrwlock_test_single_threaded() {
    let lock = RawRwLock::new();

    assert!(lock.write_lock_fast());
    assert!(!lock.read_try_lock());
    assert!(!lock.write_try_lock());
    lock.write_unlock();

    assert!(lock.read_lock_fast());
    assert!(lock.read_lock_fast());

    assert!(!lock.write_try_lock());
}

#[test]
fn new_lock_is_idle() {
    let lock = RawRwLock::new();
    assert_eq!(lock.raw(Ordering::Relaxed), 0);
}

#[test]
fn write_try_lock_on_idle_lock_sets_writer_byte() {
    let lock = RawRwLock::new();
    assert!(lock.write_try_lock());
    assert_eq!(lock.raw(Ordering::Relaxed), WRITER_LOCKED);
    lock.write_unlock();
    assert_eq!(lock.raw(Ordering::Relaxed), 0);
}

#[test]
fn read_try_lock_counts_readers() {
    let lock = RawRwLock::new();
    assert!(lock.read_try_lock());
    assert!(lock.read_try_lock());
    assert_eq!(lock.raw(Ordering::Relaxed), 2 * READER_COUNT);
    lock.read_unlock();
    assert_eq!(lock.raw(Ordering::Relaxed), READER_COUNT);
    lock.read_unlock();
    assert_eq!(lock.raw(Ordering::Relaxed), 0);
}

#[test]
fn write_try_lock_fails_while_reader_holds() {
    let lock = RawRwLock::new();
    assert!(lock.read_try_lock());
    assert!(!lock.write_try_lock());
    assert!(!lock.write_lock_fast());
    assert_eq!(lock.raw(Ordering::Relaxed), READER_COUNT);
    lock.read_unlock();
    assert!(lock.write_try_lock());
}

#[test]
fn failed_read_try_lock_leaves_no_count() {
    let lock = RawRwLock::new();
    assert!(lock.write_try_lock());
    assert!(!lock.read_try_lock());
    assert!(!lock.read_lock_fast());
    assert_eq!(lock.raw(Ordering::Relaxed), WRITER_LOCKED);
    lock.write_unlock();
    assert!(lock.write_try_lock());
}

#[test]
fn queued_writer_takes_idle_lock() {
    let lock = RawRwLock::new();
    let ticket = lock.enter_queue();
    assert!(lock.queued_writer_enter());
    drop(ticket);
    assert_eq!(lock.raw(Ordering::Relaxed), WRITER_LOCKED);
    lock.write_unlock();
    assert_eq!(lock.raw(Ordering::Relaxed), 0);
}

#[test]
fn waiting_writer_turns_readers_away_and_claims_after_drain() {
    let lock = RawRwLock::new();
    assert!(lock.read_lock_fast());
    {
        let _ticket = lock.enter_queue();
        assert!(!lock.queued_writer_enter());
        assert_eq!(lock.raw(Ordering::Relaxed), READER_COUNT | WRITER_WAITING);
        assert!(!lock.read_try_lock());
        assert!(!lock.read_lock_fast());
        assert!(!lock.write_try_lock());
        assert!(!lock.queued_writer_claim());
        lock.read_unlock();
        assert_eq!(lock.raw(Ordering::Relaxed), WRITER_WAITING);
        assert!(lock.queued_writer_claim());
    }
    assert_eq!(lock.raw(Ordering::Relaxed), WRITER_LOCKED);
    lock.write_unlock();
    assert!(lock.read_try_lock());
}

#[test]
fn write_unlock_keeps_waiting_flag() {
    let lock = RawRwLock::new();
    assert!(lock.write_lock_fast());
    let _ticket = lock.enter_queue();
    assert!(!lock.queued_writer_enter());
    assert_eq!(lock.raw(Ordering::Relaxed), WRITER_LOCKED | WRITER_WAITING);
    assert!(!lock.queued_writer_claim());
    lock.write_unlock();
    assert_eq!(lock.raw(Ordering::Relaxed), WRITER_WAITING);
    assert!(!lock.read_try_lock());
    assert!(lock.queued_writer_claim());
    assert_eq!(lock.raw(Ordering::Relaxed), WRITER_LOCKED);
}

#[test]
fn queued_reader_waits_for_writer() {
    let lock = RawRwLock::new();
    assert!(lock.write_lock_fast());
    let ticket = lock.enter_queue();
    lock.queued_reader_count_in();
    assert_eq!(lock.raw(Ordering::Relaxed), READER_COUNT | WRITER_LOCKED);
    assert!(!lock.writers_gone());
    lock.write_unlock();
    assert!(lock.writers_gone());
    drop(ticket);
    assert_eq!(lock.raw(Ordering::Relaxed), READER_COUNT);
    assert!(!lock.write_try_lock());
    lock.read_unlock();
    assert!(lock.write_try_lock());
}

#[test]
fn write_then_read_round_trip_on_the_word() {
    let lock = RawRwLock::new();
    assert!(lock.write_lock_fast());
    lock.write_unlock();
    assert!(lock.read_lock_fast());
    assert_eq!(lock.raw(Ordering::Relaxed), READER_COUNT);
}

#[test]
fn reader_limit_fits_the_count_field() {
    assert_eq!(MAX_READERS, (1u32 << 23) - 1);
    assert_eq!(MAX_READERS.wrapping_mul(READER_COUNT) >> 9, MAX_READERS);
}
