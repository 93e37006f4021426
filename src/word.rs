//! The lock word as a value: which holders a word names, and what an
//! acquisition decides from the word that its atomic operation returned.
use vstd::prelude::*;
use crate::arch::{READER_CNT, READERS_MASK, WRITER_IDX, WRITER_MASK};

verus! {

/// The word with bit `i` alone set.
pub open spec fn bit(i: u64) -> u64 {
    1u64 << i
}

/// Reader slot `s` is marked in `w`.
pub open spec fn slot_held(w: u64, s: u64) -> bool {
    w & bit(s) != 0
}

/// The writer bit is set in `w`.
pub open spec fn writer_held(w: u64) -> bool {
    w & WRITER_MASK != 0
}

/// Some reader slot is marked in `w`.
pub open spec fn readers_present(w: u64) -> bool {
    w & READERS_MASK != 0
}

/// The reader slots that a writer's `prev | WRITER_MASK | READERS_MASK` lit up
/// itself: those that were clear in `prev`.
pub open spec fn spurious_readers(prev: u64) -> u64 {
    !prev & READERS_MASK
}

/// Why a reader attempt on slot `s` failed, given the word its `fetch_or`
/// returned; `None` when the reader now holds the slot.
pub open spec fn read_outcome(prev: u64, s: u64) -> Option<ReadConflict> {
    if slot_held(prev, s) {
        Some(ReadConflict::SlotTaken)
    } else if writer_held(prev) {
        Some(ReadConflict::WriterPresent)
    } else {
        None
    }
}

/// Why a writer attempt did not take the lock outright, given the word its
/// `fetch_or` returned; `None` when the writer now holds the lock.
pub open spec fn write_outcome(prev: u64) -> Option<WriteConflict> {
    if writer_held(prev) {
        Some(WriteConflict::WriterPresent)
    } else if readers_present(prev) {
        Some(WriteConflict::ReadersPresent)
    } else {
        None
    }
}

/// The slot that a reader id stands for.
pub open spec fn slot_of(reader_idx: usize) -> usize {
    (reader_idx % READER_CNT) as usize
}

/// What stopped a reader attempt.
#[derive(Clone, Copy, Debug, PartialEq, Eq, Structural)]
pub enum ReadConflict {
    /// Another reader holds the same slot; its bit was left alone.
    SlotTaken,
    /// A writer holds or awaits the lock; the attempt cleared its own bit.
    WriterPresent,
}

/// What stopped a writer attempt.
#[derive(Clone, Copy, Debug, PartialEq, Eq, Structural)]
pub enum WriteConflict {
    /// Another writer holds the writer bit.
    WriterPresent,
    /// The writer bit is now ours, but readers were inside.
    ReadersPresent,
}

/// Reduces any reader id to a slot in `0..READER_CNT`.
pub fn reduce_slot(reader_idx: usize) -> (r: usize)
    ensures
        r == slot_of(reader_idx),
        r < READER_CNT,
{
    reader_idx % READER_CNT
}

/// Decides a reader attempt on `slot` from the word that its `fetch_or` returned.
pub fn read_conflict(prev: u64, slot: usize) -> (r: Option<ReadConflict>)
    requires
        slot < READER_CNT,
    ensures
        r == read_outcome(prev, slot as u64),
{
    if slot_free(prev, slot) {
        if writer_free(prev) {
            None
        } else {
            Some(ReadConflict::WriterPresent)
        }
    } else {
        Some(ReadConflict::SlotTaken)
    }
}

/// Decides a writer attempt from the word that its `fetch_or` returned.
pub fn write_conflict(prev: u64) -> (r: Option<WriteConflict>)
    ensures
        r == write_outcome(prev),
{
    if !writer_free(prev) {
        Some(WriteConflict::WriterPresent)
    } else if !readers_free(prev) {
        Some(WriteConflict::ReadersPresent)
    } else {
        None
    }
}

/// Slot `slot`, or the writer bit for `WRITER_IDX`, is clear in `w`.
pub fn slot_free(w: u64, slot: usize) -> (r: bool)
    requires
        slot <= WRITER_IDX,
    ensures
        r == !slot_held(w, slot as u64),
{
    w & (1u64 << slot as u64) == 0
}

/// The writer bit is clear in `w`.
pub fn writer_free(w: u64) -> (r: bool)
    ensures
        r == !writer_held(w),
{
    w & WRITER_MASK == 0
}

/// No reader slot is marked in `w`.
pub fn readers_free(w: u64) -> (r: bool)
    ensures
        r == !readers_present(w),
{
    w & READERS_MASK == 0
}

/// The reader slots to clear again after a writer's `fetch_or` returned `prev`.
pub fn spurious_reader_bits(prev: u64) -> (r: u64)
    ensures
        r == spurious_readers(prev),
{
    !prev & READERS_MASK
}

/// A reader turned back by `c` can try slot `s` again on word `w`: the
/// other reader has left the slot, or the writer has left the lock.
pub open spec fn read_retry_ready(w: u64, s: u64, c: ReadConflict) -> bool {
    match c {
        ReadConflict::SlotTaken => !slot_held(w, s),
        ReadConflict::WriterPresent => !writer_held(w),
    }
}

/// Decides, on word `w`, whether a reader on `slot` turned back by `c` can
/// try again.
pub fn read_may_retry(w: u64, slot: usize, c: ReadConflict) -> (r: bool)
    requires
        slot < READER_CNT,
    ensures
        r == read_retry_ready(w, slot as u64, c),
{
    match c {
        ReadConflict::SlotTaken => slot_free(w, slot),
        ReadConflict::WriterPresent => writer_free(w),
    }
}

} // verus!
