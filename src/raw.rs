//! The lock word in memory, and the atomic steps of the protocol on it.
//!
//! `RawRwLock` holds no data: it decides who may read and who may write. Each
//! method takes one or two atomic steps that `model::Action` names; the spin
//! loops of the slow paths, which wait without bound, belong to the caller,
//! which holds the ticket from `enter_queue` for their whole length.
//!
//! A guard's owner that stops without releasing it leaves the lock held for
//! good. Holding more than `MAX_READERS` readers at once is outside the
//! protocol: the count would run into the writer bits.
use crate::state::{admits_reader, READER_COUNT, WRITER_LOCKED, WRITER_WAITING};
use core::sync::atomic::{AtomicU32, Ordering};
use spin::mutex::{TicketMutex, TicketMutexGuard};
use vstd::prelude::*;

verus! {

#[verifier::external_type_specification]
#[verifier::external_body]
#[verifier::reject_recursive_types(T)]
#[verifier::reject_recursive_types(R)]
pub struct ExTicketMutex<T: ?Sized, R>(TicketMutex<T, R>);

#[verifier::external_type_specification]
#[verifier::external_body]
#[verifier::reject_recursive_types(T)]
pub struct ExTicketMutexGuard<'a, T: ?Sized + 'a>(TicketMutexGuard<'a, T>);

#[verifier::external_type_specification]
#[verifier::external_body]
pub struct ExSpin(spin::relax::Spin);

/// Relies on spin's TicketMutex::new: a ticket line with nobody in it.
#[verifier::external_body]
fn queue_new() -> TicketMutex<()> {
    TicketMutex::new(())
}

/// Relies on spin's TicketMutex::lock: waits for this caller's turn, in the
/// order the tickets were drawn, and holds the line until the guard is dropped.
#[verifier::external_body]
fn queue_lock(wq: &TicketMutex<()>) -> TicketMutexGuard<'_, ()> {
    wq.lock()
}

/// The lock word beside the line of contended requests.
pub struct RawRwLock {
    bits: AtomicU32,
    wq: TicketMutex<()>,
}

impl RawRwLock {
    /// An idle lock: no reader, no writer, nobody in line.
    pub fn new() -> Self {
        RawRwLock { bits: AtomicU32::new(0), wq: queue_new() }
    }

    /// The whole word, loaded with `order`.
    pub fn raw(&self, order: Ordering) -> u32 {
        self.bits.load(order)
    }

    /// Adds one reader to the count; returns the word before.
    fn add_read_count(&self, order: Ordering) -> u32 {
        self.bits.fetch_add(READER_COUNT, order)
    }

    /// Takes one reader from the count; returns the word before.
    fn sub_read_count(&self, order: Ordering) -> u32 {
        self.bits.fetch_sub(READER_COUNT, order)
    }

    /// Counts a reader in, and counts it out again at once if the word it saw
    /// had a writer bit set (`ReadFast`, then `ReadBackOut` if turned away).
    /// True iff the reader was admitted.
    pub fn read_lock_fast(&self) -> bool {
        let state = self.add_read_count(Ordering::Acquire);
        if admits_reader(state) {
            true
        } else {
            // nothing was read under the lock, so no ordering is needed
            self.sub_read_count(Ordering::Relaxed);
            false
        }
    }

    /// Swaps an idle word for a write-locked one (`WriteFast`). True iff the
    /// swap happened.
    pub fn write_lock_fast(&self) -> bool {
        self.bits.compare_exchange(0, WRITER_LOCKED, Ordering::Acquire, Ordering::Relaxed).is_ok()
    }

    /// Takes the lock for write iff it is idle; leaves the word as it was
    /// otherwise. A cheap load first spares the swap on a busy word.
    pub fn write_try_lock(&self) -> bool {
        let raw = self.raw(Ordering::Relaxed);
        if raw == 0 {
            self.write_lock_fast()
        } else {
            false
        }
    }

    /// Takes the lock for read iff no writer holds it or waits for it; a
    /// reader that is turned away takes itself out of the count again.
    pub fn read_try_lock(&self) -> bool {
        let raw = self.raw(Ordering::Relaxed);
        if admits_reader(raw) {
            self.read_lock_fast()
        } else {
            false
        }
    }

    /// Draws a ticket and waits for its turn. The line is held until the
    /// returned guard is dropped (`ReadQueue` or `WriteQueue`).
    pub fn enter_queue(&self) -> TicketMutexGuard<'_, ()> {
        queue_lock(&self.wq)
    }

    /// The queued reader counts itself in. While it holds the ticket no writer
    /// can raise the waiting flag, so it need not look at the word (`ReadCount`).
    pub fn queued_reader_count_in(&self) {
        // the reader reads nothing until `writers_gone` says so
        self.add_read_count(Ordering::Relaxed);
    }

    /// One look of a counted-in reader at the word: true iff no writer holds
    /// the lock or waits for it, and the reader may go on (`ReadAdmit`).
    pub fn writers_gone(&self) -> bool {
        let cur = self.raw(Ordering::Acquire);
        admits_reader(cur)
    }

    /// The queued writer takes an idle lock, or else raises the waiting flag
    /// to turn new fast-path readers away (`WriteRecheck`, or else `WriteFlag`).
    /// True iff it took the lock.
    pub fn queued_writer_enter(&self) -> bool {
        if self.raw(Ordering::Relaxed) == 0 && self.write_lock_fast() {
            true
        } else {
            self.bits.fetch_or(WRITER_WAITING, Ordering::Relaxed);
            false
        }
    }

    /// One try of the waiting writer: once the word holds its flag and nothing
    /// else, swap it for a write-locked word (`WriteClaim`). True iff the swap
    /// happened.
    pub fn queued_writer_claim(&self) -> bool {
        let raw = self.raw(Ordering::Relaxed);
        if raw == WRITER_WAITING {
            self.bits.compare_exchange(
                WRITER_WAITING,
                WRITER_LOCKED,
                Ordering::Acquire,
                Ordering::Relaxed,
            ).is_ok()
        } else {
            false
        }
    }

    /// Releases one read hold (`ReadUnlock`).
    pub fn read_unlock(&self) {
        self.sub_read_count(Ordering::Release);
    }

    /// Releases the write hold: clears the writer byte and leaves the waiting
    /// flag of a writer in line, and the reader count, as they are
    /// (`WriteUnlock`). One read-modify-write of the whole word stands for a
    /// store to the writer byte alone.
    pub fn write_unlock(&self) {
        self.bits.fetch_and(!WRITER_LOCKED, Ordering::Release);
    }
}

} // verus!
