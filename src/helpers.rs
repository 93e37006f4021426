//! Atomic bit primitives on a lock word. Each returns what the word held
//! just before; under concurrency that value is whatever other threads left,
//! so the contracts state only how the results relate to it.
use vstd::prelude::*;
use std::sync::atomic::{AtomicU64, Ordering};
use crate::arch::{READER_CNT, READERS_MASK, WRITER_IDX, WRITER_MASK};
use crate::word::{
    bit, readers_free, readers_present, slot_free, slot_held, spurious_reader_bits,
    spurious_readers, writer_free, writer_held,
};

verus! {

/// Relies on rand::random: any `usize`, with nothing promised of its value.
pub assume_specification<T>[ rand::random::<T> ]() -> (r: T)
    where
        rand::distributions::Standard: rand::distributions::Distribution<T>,
;

/// The mask of slot `id`, or of the writer bit for `WRITER_IDX`.
pub fn bitmask_lock(id: usize) -> (r: u64)
    requires
        id <= WRITER_IDX,
    ensures
        r == bit(id as u64),
    opens_invariants none
    no_unwind
{
    1u64 << id as u64
}

/// The mask of all reader slots.
pub fn bitmask_readers_lock() -> (r: u64)
    ensures
        r == READERS_MASK,
{
    READERS_MASK
}

/// Reads the word.
pub fn atomic_load(lock: &AtomicU64) -> u64 {
    lock.load(Ordering::SeqCst)
}

/// Sets bit `idx` and returns the word before.
pub fn atomic_lock(lock: &AtomicU64, idx: usize) -> u64
    requires
        idx <= WRITER_IDX,
{
    lock.fetch_or(bitmask_lock(idx), Ordering::SeqCst)
}

/// Flips bit `idx` back to clear and returns the word before. Only the
/// holder whose `atomic_lock` found the bit clear may call it.
pub fn atomic_unlock(lock: &AtomicU64, idx: usize) -> u64
    requires
        idx <= WRITER_IDX,
    opens_invariants none
    no_unwind
{
    xor_word(lock, bitmask_lock(idx))
}

/// Clears the bits of `mask`, which the caller set itself, and returns the
/// word before.
pub fn atomic_clear(lock: &AtomicU64, mask: u64) -> u64 {
    xor_word(lock, mask)
}

/// Relies on AtomicU64::fetch_xor: one atomic step that returns the word
/// before; it neither panics nor opens an invariant, so a guard's `drop`
/// can call it.
#[verifier::external_body]
fn xor_word(lock: &AtomicU64, mask: u64) -> u64
    opens_invariants none
    no_unwind
{
    lock.fetch_xor(mask, Ordering::SeqCst)
}

/// A reader slot drawn at random.
pub fn random_reader_idx() -> (r: usize)
    ensures
        r < READER_CNT,
{
    let r: usize = rand::random();
    r % READER_CNT
}

/// Marks slot `idx`. Returns the word before, whether the slot was free
/// there (so the bit is now ours), and whether a writer was there.
pub fn atomic_reader_lock(lock: &AtomicU64, idx: usize) -> (r: (u64, bool, bool))
    requires
        idx < READER_CNT,
    ensures
        r.1 == !slot_held(r.0, idx as u64),
        r.2 == writer_held(r.0),
{
    let prev_state = atomic_lock(lock, idx);
    let owned = slot_free(prev_state, idx);
    let block = !writer_free(prev_state);
    (prev_state, owned, block)
}

/// Releases slot `idx`, which the caller holds. Returns the word before, and
/// `false`: no retry is ever needed.
pub fn atomic_reader_unlock(lock: &AtomicU64, idx: usize) -> (r: (u64, bool))
    requires
        idx <= WRITER_IDX,
    ensures
        !r.1,
{
    let prev_state = atomic_unlock(lock, idx);
    (prev_state, false)
}

/// No reader slot is marked in the word read now.
pub fn atomic_readers_free(lock: &AtomicU64) -> bool {
    readers_free(atomic_load(lock))
}

/// Slot `idx` is clear in the word read now.
pub fn atomic_reader_load(lock: &AtomicU64, idx: usize) -> bool
    requires
        idx < READER_CNT,
{
    slot_free(atomic_load(lock), idx)
}

/// The writer bit is clear in the word read now.
pub fn atomic_writer_free(lock: &AtomicU64) -> bool {
    writer_free(atomic_load(lock))
}

/// Sets the writer bit and every reader slot at once, so that no reader can
/// enter from here on. Returns, for the word before: the reader slots that
/// this call lit up itself (the caller clears them again), whether the
/// writer bit was free (so it is now ours), and whether readers were inside.
pub fn atomic_writer_lock(lock: &AtomicU64) -> (r: (u64, bool, bool))
    ensures
        exists|prev: u64|
            r == (spurious_readers(prev), !writer_held(prev), readers_present(prev)),
{
    let prev_state = lock.fetch_or(WRITER_MASK | READERS_MASK, Ordering::SeqCst);
    let owned = writer_free(prev_state);
    let block = !readers_free(prev_state);
    (spurious_reader_bits(prev_state), owned, block)
}

/// Releases the writer bit, which the caller holds. Returns the word before,
/// and `false`.
pub fn atomic_writer_unlock(lock: &AtomicU64) -> (r: (u64, bool))
    ensures
        !r.1,
{
    atomic_reader_unlock(lock, WRITER_IDX)
}

} // verus!
