use std::sync::atomic::{AtomicU64, Ordering};

use spin_bitwise::helpers::{
    atomic_clear, atomic_load, atomic_lock, atomic_reader_load, atomic_reader_lock,
    atomic_reader_unlock, atomic_readers_free, atomic_unlock, atomic_writer_free,
    atomic_writer_lock, atomic_writer_unlock, bitmask_lock, bitmask_readers_lock,
};
use spin_bitwise::word::{
    read_conflict, read_may_retry, readers_free, reduce_slot, slot_free, spurious_reader_bits,
    write_conflict, writer_free,
};
use spin_bitwise::{
    random_reader_idx, Architecture, ReadConflict, WriteConflict, READERS_MASK, READER_CNT,
    WRITER_IDX, WRITER_MASK,
};

#[test]
fn layout_constants() {
    assert_eq!(READER_CNT, 63);
    assert_eq!(WRITER_IDX, 63);
    assert_eq!(READERS_MASK, (1u64 << 63) - 1);
    assert_eq!(WRITER_MASK, 1u64 << 63);
    let a = Architecture::native();
    assert_eq!(a.reader_cnt, 63);
    assert_eq!(a.reader_lock_mask, READERS_MASK);
}

#[test]
fn masks() {
    assert_eq!(bitmask_lock(0), 1);
    assert_eq!(bitmask_lock(5), 32);
    assert_eq!(bitmask_lock(WRITER_IDX), WRITER_MASK);
    assert_eq!(bitmask_readers_lock(), 0x7fff_ffff_ffff_ffff);
}

#[test]
fn slot_reduction_wraps() {
    assert_eq!(reduce_slot(0), 0);
    assert_eq!(reduce_slot(62), 62);
    assert_eq!(reduce_slot(63), 0);
    assert_eq!(reduce_slot(64), 1);
    assert_eq!(reduce_slot(usize::MAX), usize::MAX % 63);
}

#[test]
fn reader_decisions() {
    assert_eq!(read_conflict(0, 3), None);
    assert_eq!(read_conflict(1 << 3, 3), Some(ReadConflict::SlotTaken));
    assert_eq!(read_conflict(1 << 4, 3), None);
    assert_eq!(read_conflict(WRITER_MASK, 3), Some(ReadConflict::WriterPresent));
    // a slot lit up by a writer counts as taken: the reader must not clear it
    assert_eq!(read_conflict(u64::MAX, 3), Some(ReadConflict::SlotTaken));
}

#[test]
fn writer_decisions() {
    assert_eq!(write_conflict(0), None);
    assert_eq!(write_conflict(1), Some(WriteConflict::ReadersPresent));
    assert_eq!(write_conflict(WRITER_MASK), Some(WriteConflict::WriterPresent));
    assert_eq!(write_conflict(WRITER_MASK | 1), Some(WriteConflict::WriterPresent));
}

#[test]
fn spurious_bits_are_the_clear_slots() {
    assert_eq!(spurious_reader_bits(0), READERS_MASK);
    assert_eq!(spurious_reader_bits(0b101), READERS_MASK & !0b101);
    assert_eq!(spurious_reader_bits(u64::MAX), 0);
    assert_eq!(spurious_reader_bits(WRITER_MASK), READERS_MASK);
}

#[test]
fn word_predicates() {
    assert!(slot_free(0b10, 0));
    assert!(!slot_free(0b10, 1));
    assert!(!slot_free(WRITER_MASK, WRITER_IDX));
    assert!(writer_free(READERS_MASK));
    assert!(!writer_free(WRITER_MASK));
    assert!(readers_free(WRITER_MASK));
    assert!(!readers_free(1 << 62));
}

#[test]
fn retry_decisions() {
    assert!(read_may_retry(0, 2, ReadConflict::SlotTaken));
    assert!(!read_may_retry(0b100, 2, ReadConflict::SlotTaken));
    assert!(read_may_retry(0b100, 2, ReadConflict::WriterPresent));
    assert!(!read_may_retry(WRITER_MASK, 2, ReadConflict::WriterPresent));
}

#[test]
fn atomic_primitives_return_previous_word() {
    let w = AtomicU64::new(0);
    assert_eq!(atomic_lock(&w, 2), 0);
    assert_eq!(atomic_load(&w), 4);
    assert_eq!(atomic_lock(&w, 2), 4);
    assert_eq!(atomic_unlock(&w, 2), 4);
    assert_eq!(w.load(Ordering::SeqCst), 0);
    assert_eq!(atomic_lock(&w, 1), 0);
    assert_eq!(atomic_clear(&w, 0b10), 0b10);
    assert_eq!(atomic_load(&w), 0);
}

#[test]
fn atomic_reader_primitives() {
    let w = AtomicU64::new(0);
    assert_eq!(atomic_reader_lock(&w, 7), (0, true, false));
    assert!(!atomic_reader_load(&w, 7));
    assert!(atomic_reader_load(&w, 6));
    assert!(!atomic_readers_free(&w));
    assert_eq!(atomic_reader_lock(&w, 7), (1 << 7, false, false));
    assert_eq!(atomic_reader_unlock(&w, 7), (1 << 7, false));
    assert!(atomic_readers_free(&w));
    let v = AtomicU64::new(WRITER_MASK);
    assert_eq!(atomic_reader_lock(&v, 0), (WRITER_MASK, true, true));
}

#[test]
fn atomic_writer_primitives() {
    let w = AtomicU64::new(0);
    assert_eq!(atomic_writer_lock(&w), (READERS_MASK, true, false));
    assert_eq!(atomic_load(&w), u64::MAX);
    assert!(!atomic_writer_free(&w));
    atomic_clear(&w, READERS_MASK);
    assert_eq!(atomic_writer_unlock(&w), (WRITER_MASK, false));
    assert!(atomic_writer_free(&w));
    let r = AtomicU64::new(0b11);
    assert_eq!(atomic_writer_lock(&r), (READERS_MASK & !0b11, true, true));
    assert_eq!(atomic_writer_lock(&r), (0, false, true));
}

#[test]
fn random_slots_are_in_range() {
    for _ in 0..1000 {
        assert!(random_reader_idx() < READER_CNT);
    }
}
