//! Layout of the lock word.
use vstd::prelude::*;

verus! {

/// Number of reader slots: every bit of the word but the top one.
pub const READER_CNT: usize = 63;

/// Bit index of the writer, just above the reader slots.
pub const WRITER_IDX: usize = 63;

/// The reader slots `0..READER_CNT`, all set.
pub const READERS_MASK: u64 = 0x7fff_ffff_ffff_ffff;

/// The writer bit alone.
pub const WRITER_MASK: u64 = 0x8000_0000_0000_0000;

/// The word layout as one value, for callers that reduce their own slot ids.
#[derive(Clone, Copy, Debug, PartialEq, Eq)]
pub struct Architecture {
    pub reader_cnt: usize,
    pub reader_lock_mask: u64,
}

impl Architecture {
    /// The layout of the lock word.
    pub fn native() -> (a: Architecture)
        ensures
            a.reader_cnt == READER_CNT,
            a.reader_lock_mask == READERS_MASK,
    {
        Architecture { reader_cnt: READER_CNT, reader_lock_mask: READERS_MASK }
    }
}

pub proof fn lemma_layout()
    ensures
        READERS_MASK == (1u64 << 63u64) - 1,
        WRITER_MASK == 1u64 << 63u64,
        READERS_MASK & WRITER_MASK == 0,
        READERS_MASK | WRITER_MASK == u64::MAX,
{
    assert(0x7fff_ffff_ffff_ffffu64 == (1u64 << 63u64) - 1) by (bit_vector);
    assert(0x8000_0000_0000_0000u64 == 1u64 << 63u64) by (bit_vector);
    assert(0x7fff_ffff_ffff_ffffu64 & 0x8000_0000_0000_0000u64 == 0) by (bit_vector);
    assert(0x7fff_ffff_ffff_ffffu64 | 0x8000_0000_0000_0000u64 == 0xffff_ffff_ffff_ffffu64) by (bit_vector);
}

} // verus!
