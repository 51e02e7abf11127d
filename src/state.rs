//! The packed lock word.
//!
//! One `u32` carries the whole lock state:
//! - bits 0..8: the writer byte, `0xff` while a writer holds the lock, `0` otherwise;
//! - bit 8: the writer-waiting flag, set by the one writer queued for the lock;
//! - bits 9..32: the reader count, in units of `READER_COUNT`.
use vstd::prelude::*;

verus! {

/// Value of the writer byte while a writer holds the lock.
pub const WRITER_LOCKED: u32 = 0xff;

/// Flag set by a queued writer to turn new fast-path readers away.
pub const WRITER_WAITING: u32 = 0x100;

/// A word is free for a new reader iff none of these bits is set.
pub const WRITER_MASK: u32 = 0x1ff;

/// One reader, as added to or taken from the word.
pub const READER_COUNT: u32 = 0x200;

/// The largest reader count the word can hold.
pub const MAX_READERS: u32 = 0x7f_ffff;

/// The word that holds `readers` readers, the writer byte set iff `locked`,
/// and the waiting flag set iff `waiting`.
pub open spec fn encode(readers: u32, locked: bool, waiting: bool) -> u32 {
    (readers << 9u32) | low_bits(locked, waiting)
}

pub open spec fn low_bits(locked: bool, waiting: bool) -> u32 {
    if locked {
        if waiting {
            WRITER_WAITING | WRITER_LOCKED
        } else {
            WRITER_LOCKED
        }
    } else {
        if waiting {
            WRITER_WAITING
        } else {
            0
        }
    }
}

pub open spec fn reader_count(w: u32) -> u32 {
    w >> 9u32
}

pub open spec fn writer_locked(w: u32) -> bool {
    w & 0xffu32 == WRITER_LOCKED
}

pub open spec fn writer_waiting(w: u32) -> bool {
    w & WRITER_WAITING != 0
}

/// No writer holds the lock and none waits for it.
pub open spec fn free_for_reader(w: u32) -> bool {
    w & WRITER_MASK == 0
}

proof fn lemma_low_bits(locked: bool, waiting: bool)
    ensures
        low_bits(locked, waiting) < 0x200,
        low_bits(locked, waiting) & 0xffu32 == (if locked { WRITER_LOCKED } else { 0u32 }),
        (low_bits(locked, waiting) & WRITER_WAITING != 0) == waiting,
        (low_bits(locked, waiting) == 0) == (!locked && !waiting),
        (low_bits(locked, waiting) == WRITER_WAITING) == (!locked && waiting),
        low_bits(locked, waiting) | WRITER_WAITING == low_bits(locked, true),
        low_bits(locked, waiting) & !0xffu32 == low_bits(false, waiting),
{
    assert(0x100u32 | 0xffu32 == 0x1ffu32) by (bit_vector);
    assert(0x1ffu32 & 0xffu32 == 0xffu32 && 0x1ffu32 & 0x100u32 != 0 && 0x1ffu32 | 0x100u32
        == 0x1ffu32 && 0x1ffu32 & !0xffu32 == 0x100u32) by (bit_vector);
    assert(0xffu32 & 0xffu32 == 0xffu32 && 0xffu32 & 0x100u32 == 0 && 0xffu32 | 0x100u32
        == 0x1ffu32 && 0xffu32 & !0xffu32 == 0u32) by (bit_vector);
    assert(0x100u32 & 0xffu32 == 0u32 && 0x100u32 & 0x100u32 != 0 && 0x100u32 | 0x100u32
        == 0x100u32 && 0x100u32 & !0xffu32 == 0x100u32) by (bit_vector);
    assert(0u32 & 0xffu32 == 0u32 && 0u32 & 0x100u32 == 0 && 0u32 | 0x100u32 == 0x100u32 && 0u32
        & !0xffu32 == 0u32) by (bit_vector);
}

proof fn lemma_split(r: u32, x: u32)
    requires
        r <= MAX_READERS,
        x < 0x200,
    ensures
        ((r << 9u32) | x) >> 9u32 == r,
        ((r << 9u32) | x) & 0xffu32 == x & 0xffu32,
        ((r << 9u32) | x) & WRITER_WAITING == x & WRITER_WAITING,
        ((r << 9u32) | x) & WRITER_MASK == x,
        (((r << 9u32) | x) == 0) == (r == 0 && x == 0),
        (((r << 9u32) | x) == WRITER_WAITING) == (r == 0 && x == WRITER_WAITING),
        ((r << 9u32) | x) | WRITER_WAITING == (r << 9u32) | (x | WRITER_WAITING),
        ((r << 9u32) | x) & !0xffu32 == (r << 9u32) | (x & !0xffu32),
        ((r << 9u32) | x) as int == r as int * 0x200 + x as int,
{
    assert(r <= 0x7fffffu32 && x < 0x200u32 ==> {
        &&& ((r << 9u32) | x) >> 9u32 == r
        &&& ((r << 9u32) | x) & 0xffu32 == x & 0xffu32
        &&& ((r << 9u32) | x) & 0x100u32 == x & 0x100u32
        &&& ((r << 9u32) | x) & 0x1ffu32 == x
        &&& (((r << 9u32) | x) == 0) == (r == 0 && x == 0)
        &&& (((r << 9u32) | x) == 0x100u32) == (r == 0 && x == 0x100u32)
        &&& ((r << 9u32) | x) | 0x100u32 == (r << 9u32) | (x | 0x100u32)
        &&& ((r << 9u32) | x) & !0xffu32 == (r << 9u32) | (x & !0xffu32)
        &&& ((r << 9u32) | x) == (r << 9u32) + x
    }) by (bit_vector);
    assert(r <= 0x7fffffu32 ==> (r << 9u32) == r * 0x200u32) by (bit_vector);
    assert(r as int * 0x200 <= 0x7fffff * 0x200) by (nonlinear_arith)
        requires r <= 0x7fffff;
}

/// What each field of an encoded word reads back as.
pub proof fn lemma_encode_fields(readers: u32, locked: bool, waiting: bool)
    requires
        readers <= MAX_READERS,
    ensures
        reader_count(encode(readers, locked, waiting)) == readers,
        writer_locked(encode(readers, locked, waiting)) == locked,
        encode(readers, locked, waiting) & 0xffu32 == (if locked { WRITER_LOCKED } else { 0u32 }),
        writer_waiting(encode(readers, locked, waiting)) == waiting,
        free_for_reader(encode(readers, locked, waiting)) == (!locked && !waiting),
        (encode(readers, locked, waiting) == 0) == (readers == 0 && !locked && !waiting),
        (encode(readers, locked, waiting) == WRITER_WAITING) == (readers == 0 && !locked
            && waiting),
{
    lemma_low_bits(locked, waiting);
    let x = low_bits(locked, waiting);
    lemma_split(readers, x);
    assert(0u32 & 0xffu32 == 0u32 && 0xffu32 & 0xffu32 == 0xffu32) by (bit_vector);
}

/// Adding and taking away a reader, setting the waiting flag and clearing the
/// writer byte each change one field of an encoded word.
pub proof fn lemma_encode_updates(readers: u32, locked: bool, waiting: bool)
    requires
        readers <= MAX_READERS,
    ensures
        readers < MAX_READERS ==> encode(readers, locked, waiting) as int + READER_COUNT as int
            == encode((readers + 1) as u32, locked, waiting) as int,
        readers > 0 ==> encode(readers, locked, waiting) as int - READER_COUNT as int
            == encode((readers - 1) as u32, locked, waiting) as int,
        encode(readers, locked, waiting) | WRITER_WAITING == encode(readers, locked, true),
        encode(readers, locked, waiting) & !WRITER_LOCKED == encode(readers, false, waiting),
        encode(readers, locked, waiting) as int <= u32::MAX as int,
{
    lemma_low_bits(locked, waiting);
    lemma_low_bits(locked, true);
    lemma_low_bits(false, waiting);
    let x = low_bits(locked, waiting);
    lemma_split(readers, x);
    lemma_split(readers, low_bits(locked, true));
    lemma_split(readers, low_bits(false, waiting));
    if readers < MAX_READERS {
        lemma_split((readers + 1) as u32, x);
    }
    if readers > 0 {
        lemma_split((readers - 1) as u32, x);
    }
}

/// Decides, from the word seen by an atomic step, whether a reader may enter.
pub fn admits_reader(observed: u32) -> (r: bool)
    ensures
        r == free_for_reader(observed),
{
    observed & WRITER_MASK == 0
}

} // verus!
