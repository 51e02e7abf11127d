//! The lock protocol as a transition system.
//!
//! Each action is one atomic step that some thread takes on the lock word (or
//! on the ticket queue) in `raw`, taken at a moment when it succeeds: a failed
//! compare-and-swap or a load that sends a thread back to spinning changes
//! nothing and is left out. The state counts the live guards beside the word,
//! so that what the word promises about them can be proved for every
//! interleaving of the threads' steps.
use crate::state::{
    encode, free_for_reader, lemma_encode_fields, lemma_encode_updates, reader_count, MAX_READERS,
    READER_COUNT, WRITER_LOCKED, WRITER_WAITING,
};
use vstd::prelude::*;

verus! {

/// Who holds the ticket of the waiting line, and how far it has come.
pub enum Queue {
    Free,
    /// A reader holds the ticket and has not yet counted itself in.
    ReaderQueued,
    /// A reader holds the ticket, is counted in the word, and waits for writers to leave.
    ReaderCounted,
    /// A writer holds the ticket and has not yet raised the waiting flag.
    WriterQueued,
    /// A writer holds the ticket and has raised the waiting flag.
    WriterWaiting,
}

pub struct Proto {
    pub word: u32,
    /// Live read guards.
    pub readers: nat,
    /// Live write guards.
    pub writers: nat,
    /// Readers that counted themselves in, found a writer, and still have to count themselves out.
    pub backing_out: nat,
    pub queue: Queue,
    /// The protected value.
    pub data: int,
}

pub enum Action {
    /// A reader adds itself to the count; it is admitted iff the word it saw was free.
    ReadFast,
    /// A turned-away reader takes itself out of the count again.
    ReadBackOut,
    /// A read guard is dropped.
    ReadUnlock,
    /// A reader takes the ticket.
    ReadQueue,
    /// The queued reader adds itself to the count.
    ReadCount,
    /// The queued reader sees no writer bit, is admitted, and hands the ticket on.
    ReadAdmit,
    /// A writer swaps an idle word for a locked one.
    WriteFast,
    /// A writer takes the ticket.
    WriteQueue,
    /// The queued writer finds the word idle, locks it, and hands the ticket on.
    WriteRecheck,
    /// The queued writer raises the waiting flag.
    WriteFlag,
    /// The waiting writer swaps the bare waiting flag for a locked word and hands the ticket on.
    WriteClaim,
    /// A write guard is dropped: the writer byte is cleared.
    WriteUnlock,
    /// A write guard stores a new value.
    Store(int),
}

/// The reader count that the word should carry in `s`.
pub open spec fn counted(s: Proto) -> nat {
    s.readers + s.backing_out + (if s.queue is ReaderCounted { 1nat } else { 0nat })
}

pub open spec fn initial(data: int) -> Proto {
    Proto { word: 0, readers: 0, writers: 0, backing_out: 0, queue: Queue::Free, data }
}

pub open spec fn enabled(s: Proto, a: Action) -> bool {
    match a {
        Action::ReadFast => reader_count(s.word) < MAX_READERS,
        Action::ReadBackOut => s.backing_out > 0,
        Action::ReadUnlock => s.readers > 0,
        Action::ReadQueue => s.queue is Free,
        Action::ReadCount => s.queue is ReaderQueued && reader_count(s.word) < MAX_READERS,
        Action::ReadAdmit => s.queue is ReaderCounted && free_for_reader(s.word),
        Action::WriteFast => s.word == 0,
        Action::WriteQueue => s.queue is Free,
        Action::WriteRecheck => s.queue is WriterQueued && s.word == 0,
        Action::WriteFlag => s.queue is WriterQueued,
        Action::WriteClaim => s.queue is WriterWaiting && s.word == WRITER_WAITING,
        Action::WriteUnlock => s.writers > 0,
        Action::Store(_) => s.writers > 0,
    }
}

pub open spec fn step(s: Proto, a: Action) -> Proto {
    match a {
        Action::ReadFast => if free_for_reader(s.word) {
            Proto { word: (s.word + READER_COUNT) as u32, readers: s.readers + 1, ..s }
        } else {
            Proto { word: (s.word + READER_COUNT) as u32, backing_out: s.backing_out + 1, ..s }
        },
        Action::ReadBackOut => Proto {
            word: (s.word - READER_COUNT) as u32,
            backing_out: (s.backing_out - 1) as nat,
            ..s
        },
        Action::ReadUnlock => Proto {
            word: (s.word - READER_COUNT) as u32,
            readers: (s.readers - 1) as nat,
            ..s
        },
        Action::ReadQueue => Proto { queue: Queue::ReaderQueued, ..s },
        Action::ReadCount => Proto {
            word: (s.word + READER_COUNT) as u32,
            queue: Queue::ReaderCounted,
            ..s
        },
        Action::ReadAdmit => Proto { readers: s.readers + 1, queue: Queue::Free, ..s },
        Action::WriteFast => Proto { word: WRITER_LOCKED, writers: s.writers + 1, ..s },
        Action::WriteQueue => Proto { queue: Queue::WriterQueued, ..s },
        Action::WriteRecheck => Proto {
            word: WRITER_LOCKED,
            writers: s.writers + 1,
            queue: Queue::Free,
            ..s
        },
        Action::WriteFlag => Proto {
            word: s.word | WRITER_WAITING,
            queue: Queue::WriterWaiting,
            ..s
        },
        Action::WriteClaim => Proto {
            word: WRITER_LOCKED,
            writers: s.writers + 1,
            queue: Queue::Free,
            ..s
        },
        Action::WriteUnlock => Proto {
            word: s.word & !WRITER_LOCKED,
            writers: (s.writers - 1) as nat,
            ..s
        },
        Action::Store(v) => Proto { data: v, ..s },
    }
}

/// The state after taking `acts` in order from `s`, or `None` if one of them
/// cannot be taken where it stands.
pub open spec fn run(s: Proto, acts: Seq<Action>) -> Option<Proto>
    decreases acts.len(),
{
    if acts.len() == 0 {
        Some(s)
    } else if enabled(s, acts[0]) {
        run(step(s, acts[0]), acts.drop_first())
    } else {
        None
    }
}

/// At most one write guard, and never one beside a read guard.
pub open spec fn exclusive(s: Proto) -> bool {
    &&& s.writers <= 1
    &&& s.writers > 0 ==> s.readers == 0
}

/// The word tells the truth about the guards and the line.
pub open spec fn inv(s: Proto) -> bool {
    &&& counted(s) <= MAX_READERS
    &&& s.word == encode(counted(s) as u32, s.writers > 0, s.queue is WriterWaiting)
    &&& exclusive(s)
}

pub proof fn lemma_initial_inv(data: int)
    ensures
        inv(initial(data)),
{
    lemma_encode_fields(0, false, false);
    assert(encode(0, false, false) == 0) by (bit_vector);
}

/// Every step that can be taken keeps the invariant.
pub proof fn lemma_step_inv(s: Proto, a: Action)
    requires
        inv(s),
        enabled(s, a),
    ensures
        inv(step(s, a)),
{
    let c = counted(s) as u32;
    let locked = s.writers > 0;
    let waiting = s.queue is WriterWaiting;
    lemma_encode_fields(c, locked, waiting);
    lemma_encode_updates(c, locked, waiting);
    lemma_encode_fields(0, true, false);
    assert(encode(0, true, false) == WRITER_LOCKED) by (bit_vector);
    let t = step(s, a);
    match a {
        Action::ReadFast => {
            assert(counted(t) == counted(s) + 1);
        },
        Action::ReadBackOut => {
            assert(counted(t) + 1 == counted(s));
        },
        Action::ReadUnlock => {
            assert(counted(t) + 1 == counted(s));
        },
        Action::ReadCount => {
            assert(counted(t) == counted(s) + 1);
        },
        Action::ReadAdmit => {
            assert(counted(t) == counted(s));
        },
        _ => {},
    }
}

/// The invariant holds in every state that a run from a state keeping it reaches.
pub proof fn lemma_run_inv(s: Proto, acts: Seq<Action>)
    requires
        inv(s),
    ensures
        run(s, acts) matches Some(t) ==> inv(t),
    decreases acts.len(),
{
    if acts.len() > 0 && enabled(s, acts[0]) {
        lemma_step_inv(s, acts[0]);
        lemma_run_inv(step(s, acts[0]), acts.drop_first());
    }
}

/// However the threads' steps interleave, a live write guard never stands beside
/// another write guard or beside a read guard.
pub proof fn lemma_guards_exclusive(data: int, acts: Seq<Action>)
    ensures
        run(initial(data), acts) matches Some(t) ==> exclusive(t),
{
    lemma_initial_inv(data);
    lemma_run_inv(initial(data), acts);
}

/// A try for write succeeds iff the word is idle: never while a read or write
/// guard is live, and always once no guard is live, no reader is on its way in
/// or out, and no writer waits in line.
pub proof fn lemma_try_write(s: Proto)
    requires
        inv(s),
    ensures
        enabled(s, Action::WriteFast) ==> s.readers == 0 && s.writers == 0,
        s.readers == 0 && s.writers == 0 && s.backing_out == 0 && !(s.queue is ReaderCounted)
            && !(s.queue is WriterWaiting) ==> enabled(s, Action::WriteFast),
{
    lemma_encode_fields(counted(s) as u32, s.writers > 0, s.queue is WriterWaiting);
}

/// A try for read is admitted iff no write guard is live and no writer waits
/// in line; one that is turned away owes only its back-out step.
pub proof fn lemma_try_read(s: Proto)
    requires
        inv(s),
        enabled(s, Action::ReadFast),
    ensures
        free_for_reader(s.word) == (s.writers == 0 && !(s.queue is WriterWaiting)),
        step(s, Action::ReadFast).readers == s.readers + (if s.writers == 0 && !(
        s.queue is WriterWaiting) {
            1nat
        } else {
            0nat
        }),
        !free_for_reader(s.word) ==> ({
            let t = step(step(s, Action::ReadFast), Action::ReadBackOut);
            &&& enabled(step(s, Action::ReadFast), Action::ReadBackOut)
            &&& t == s
        }),
{
    lemma_encode_fields(counted(s) as u32, s.writers > 0, s.queue is WriterWaiting);
    lemma_encode_updates(counted(s) as u32, s.writers > 0, s.queue is WriterWaiting);
    if !free_for_reader(s.word) {
        let t = step(step(s, Action::ReadFast), Action::ReadBackOut);
        assert(t.word == s.word);
    }
}

/// While a writer waits in line with its flag raised, every reader that takes
/// the fast path is turned away.
pub proof fn lemma_waiting_writer_turns_readers_away(s: Proto)
    requires
        inv(s),
        s.queue is WriterWaiting,
        enabled(s, Action::ReadFast),
    ensures
        step(s, Action::ReadFast).readers == s.readers,
        step(s, Action::ReadFast).queue is WriterWaiting,
{
    lemma_encode_fields(counted(s) as u32, s.writers > 0, s.queue is WriterWaiting);
}

/// A value stored under a write guard is what the next reader sees, once the
/// guard is dropped; from an idle word the four steps always go through.
pub proof fn lemma_write_then_read(s: Proto, v: int)
    requires
        inv(s),
    ensures
        ({
            let acts = seq![Action::WriteFast, Action::Store(v), Action::WriteUnlock, Action::ReadFast];
            &&& run(s, acts) matches Some(t) ==> t.data == v && t.readers == s.readers + 1
            &&& s.word == 0 ==> run(s, acts) is Some
        }),
{
    let acts = seq![Action::WriteFast, Action::Store(v), Action::WriteUnlock, Action::ReadFast];
    reveal_with_fuel(run, 5);
    if s.word == 0 {
        lemma_step_inv(s, Action::WriteFast);
        let s1 = step(s, Action::WriteFast);
        lemma_step_inv(s1, Action::Store(v));
        let s2 = step(s1, Action::Store(v));
        lemma_step_inv(s2, Action::WriteUnlock);
        let s3 = step(s2, Action::WriteUnlock);
        lemma_encode_fields(counted(s3) as u32, s3.writers > 0, s3.queue is WriterWaiting);
        lemma_encode_fields(counted(s) as u32, s.writers > 0, s.queue is WriterWaiting);
        assert(acts.drop_first() =~= seq![Action::Store(v), Action::WriteUnlock, Action::ReadFast]);
        assert(acts.drop_first().drop_first() =~= seq![Action::WriteUnlock, Action::ReadFast]);
        assert(acts.drop_first().drop_first().drop_first() =~= seq![Action::ReadFast]);
        assert(acts.drop_first().drop_first().drop_first().drop_first() =~= Seq::<Action>::empty());
    } else {
        assert(!enabled(s, acts[0]));
    }
}

/// No reader overtakes a writer that waits in line with its flag raised: until
/// that writer claims the lock, the line stays its own and the number of live
/// read guards never grows. Its claim can be taken as soon as the readers it
/// found have drained and the writer before it has left.
pub proof fn lemma_waiting_writer_not_overtaken(s: Proto, acts: Seq<Action>)
    requires
        inv(s),
        s.queue is WriterWaiting,
        forall|i: int| 0 <= i < acts.len() ==> !(acts[i] is WriteClaim),
    ensures
        run(s, acts) matches Some(t) ==> {
            &&& t.queue is WriterWaiting
            &&& t.readers <= s.readers
            &&& t.readers == 0 && t.backing_out == 0 && t.writers == 0 ==> enabled(
                t,
                Action::WriteClaim,
            )
        },
    decreases acts.len(),
{
    if acts.len() == 0 {
        lemma_encode_fields(counted(s) as u32, s.writers > 0, true);
    } else if enabled(s, acts[0]) {
        let a = acts[0];
        lemma_step_inv(s, a);
        lemma_encode_fields(counted(s) as u32, s.writers > 0, true);
        let rest = acts.drop_first();
        assert forall|i: int| 0 <= i < rest.len() implies !(rest[i] is WriteClaim) by {
            assert(rest[i] == acts[i + 1]);
        }
        lemma_waiting_writer_not_overtaken(step(s, a), rest);
    }
}

} // verus!
