//! The protocol as a whole: the steps that acquisitions and releases make on
//! a word, and what holds of the word across them.
use vstd::prelude::*;
use vstd::set_lib::{lemma_int_range, lemma_len_subset, set_int_range};
use crate::arch::{READER_CNT, READERS_MASK, WRITER_MASK, lemma_layout};
use crate::word::{
    bit, read_outcome, readers_present, slot_held, slot_of, spurious_readers, write_outcome,
    writer_held, ReadConflict, WriteConflict,
};

verus! {

/// The word after a complete reader attempt on slot `s` that found `w`: the
/// bit is set, and cleared again when a writer turned the attempt back.
pub open spec fn read_attempt_word(w: u64, s: u64) -> u64 {
    if read_outcome(w, s) == Some(ReadConflict::WriterPresent) {
        (w | bit(s)) ^ bit(s)
    } else {
        w | bit(s)
    }
}

/// The word after a writer attempt that found `w`: the writer bit and all
/// reader slots set, then the slots that were clear in `w` cleared again.
pub open spec fn write_attempt_word(w: u64) -> u64 {
    (w | WRITER_MASK | READERS_MASK) ^ spurious_readers(w)
}

/// No reader slot is marked while the writer bit is set: the shape of the
/// word whenever no acquisition is in progress.
pub open spec fn exclusive(w: u64) -> bool {
    writer_held(w) ==> !readers_present(w)
}

/// `w` names exactly the holders `readers` (slots) and `writer`.
pub open spec fn encodes(w: u64, readers: Set<nat>, writer: bool) -> bool {
    &&& forall|s: nat|
        #![trigger readers.contains(s)]
        #![trigger slot_held(w, s as u64)]
        s < READER_CNT ==> (readers.contains(s) <==> slot_held(w, s as u64))
    &&& forall|s: nat| readers.contains(s) ==> s < READER_CNT
    &&& writer_held(w) == writer
}

proof fn lemma_bit_or_xor(w: u64, s: u64, t: u64)
    requires
        s < 64,
        t < 64,
    ensures
        ((w | bit(s)) & bit(t) != 0) <==> ((w & bit(t) != 0) || s == t),
        ((w ^ bit(s)) & bit(t) != 0) <==> ((w & bit(t) != 0) != (s == t)),
        (w & bit(s) != 0) ==> (w | bit(s)) == w,
        (w & bit(s) == 0) ==> ((w | bit(s)) ^ bit(s)) == w,
{
    assert(((w | (1u64 << s)) & (1u64 << t) != 0) <==> ((w & (1u64 << t) != 0) || s == t))
        by (bit_vector)
        requires
            s < 64,
            t < 64,
    ;
    assert(((w ^ (1u64 << s)) & (1u64 << t) != 0) <==> ((w & (1u64 << t) != 0) != (s == t)))
        by (bit_vector)
        requires
            s < 64,
            t < 64,
    ;
    assert((w & (1u64 << s) != 0) ==> (w | (1u64 << s)) == w) by (bit_vector);
    assert((w & (1u64 << s) == 0) ==> ((w | (1u64 << s)) ^ (1u64 << s)) == w) by (bit_vector);
}

proof fn lemma_slot_vs_masks(w: u64, s: u64)
    requires
        s < 63,
    ensures
        (w | bit(s)) & 0x8000_0000_0000_0000u64 == w & 0x8000_0000_0000_0000u64,
        (w ^ bit(s)) & 0x8000_0000_0000_0000u64 == w & 0x8000_0000_0000_0000u64,
        (w & bit(s) != 0) ==> (w & 0x7fff_ffff_ffff_ffffu64 != 0),
        ((w ^ 0x8000_0000_0000_0000u64) & bit(s) != 0) <==> (w & bit(s) != 0),
        bit(s) & 0x7fff_ffff_ffff_ffffu64 == bit(s),
{
    assert((w | (1u64 << s)) & 0x8000_0000_0000_0000u64 == w & 0x8000_0000_0000_0000u64)
        by (bit_vector)
        requires
            s < 63,
    ;
    assert((w ^ (1u64 << s)) & 0x8000_0000_0000_0000u64 == w & 0x8000_0000_0000_0000u64)
        by (bit_vector)
        requires
            s < 63,
    ;
    assert((w & (1u64 << s) != 0) ==> (w & 0x7fff_ffff_ffff_ffffu64 != 0)) by (bit_vector)
        requires
            s < 63,
    ;
    assert(((w ^ 0x8000_0000_0000_0000u64) & (1u64 << s) != 0) <==> (w & (1u64 << s) != 0))
        by (bit_vector)
        requires
            s < 63,
    ;
    assert((1u64 << s) & 0x7fff_ffff_ffff_ffffu64 == (1u64 << s)) by (bit_vector)
        requires
            s < 63,
    ;
}

proof fn lemma_writer_step_words(w: u64)
    by (bit_vector)
    ensures
        ((w | 0x8000_0000_0000_0000u64 | 0x7fff_ffff_ffff_ffffu64) ^ (!w & 0x7fff_ffff_ffff_ffffu64))
            == w | 0x8000_0000_0000_0000u64,
        (w & 0x8000_0000_0000_0000u64 == 0) ==> ((w ^ 0x8000_0000_0000_0000u64)
            & 0x8000_0000_0000_0000u64 != 0),
        (w & 0x8000_0000_0000_0000u64 != 0) ==> ((w ^ 0x8000_0000_0000_0000u64)
            & 0x8000_0000_0000_0000u64 == 0),
        (w ^ 0x8000_0000_0000_0000u64) & 0x7fff_ffff_ffff_ffffu64 == w & 0x7fff_ffff_ffff_ffffu64,
        (w | 0x8000_0000_0000_0000u64) & 0x7fff_ffff_ffff_ffffu64 == w & 0x7fff_ffff_ffff_ffffu64,
        (w | 0x8000_0000_0000_0000u64) & 0x8000_0000_0000_0000u64 != 0,
        (w & 0x8000_0000_0000_0000u64 != 0) ==> (w | 0x8000_0000_0000_0000u64) == w,
        (w & 0x8000_0000_0000_0000u64 == 0 && w & 0x7fff_ffff_ffff_ffffu64 == 0) ==> w == 0,
{
}

/// A fresh lock's word has the shape of a quiescent word, and every complete
/// step from such a word keeps that shape: a reader attempt, a reader's or
/// the writer's release, and a writer attempt that did not have to wait for
/// readers. (A writer that waits holds the writer bit until no reader slot
/// is marked, and only then completes, on a word of the same shape.)
pub proof fn lemma_exclusive_is_invariant(w: u64, s: u64)
    requires
        exclusive(w),
        s < READER_CNT,
    ensures
        exclusive(0),
        exclusive(read_attempt_word(w, s)),
        slot_held(w, s) ==> exclusive(w ^ bit(s)),
        writer_held(w) ==> exclusive(w ^ WRITER_MASK),
        write_outcome(w) != Some(WriteConflict::ReadersPresent) ==> exclusive(write_attempt_word(w)),
{
    lemma_layout();
    assert(0u64 & 0x8000_0000_0000_0000u64 == 0) by (bit_vector);
    lemma_bit_or_xor(w, s, s);
    lemma_slot_vs_masks(w, s);
    lemma_slot_vs_masks(w | bit(s), s);
    lemma_writer_step_words(w);
    if read_outcome(w, s) == Some(ReadConflict::WriterPresent) {
        assert(read_attempt_word(w, s) == w);
    } else if read_outcome(w, s) == Some(ReadConflict::SlotTaken) {
        assert(read_attempt_word(w, s) == w);
    } else {
        assert(!writer_held(read_attempt_word(w, s)));
    }
    if slot_held(w, s) {
        assert(!writer_held(w));
    }
}

/// Acquiring and then releasing a lock that nobody else touches leaves its
/// word at 0, for a reader in any slot and for the writer.
pub proof fn lemma_round_trip(s: u64)
    requires
        s < READER_CNT,
    ensures
        read_outcome(0, s) == None::<ReadConflict>,
        read_attempt_word(0, s) ^ bit(s) == 0,
        write_outcome(0) == None::<WriteConflict>,
        write_attempt_word(0) == WRITER_MASK,
        write_attempt_word(0) ^ WRITER_MASK == 0,
{
    lemma_layout();
    assert(0u64 & (1u64 << s) == 0) by (bit_vector);
    assert((0u64 | (1u64 << s)) ^ (1u64 << s) == 0) by (bit_vector);
    assert(0u64 & 0x8000_0000_0000_0000u64 == 0) by (bit_vector);
    assert(0u64 & 0x7fff_ffff_ffff_ffffu64 == 0) by (bit_vector);
    assert(((0u64 | 0x8000_0000_0000_0000u64 | 0x7fff_ffff_ffff_ffffu64) ^ (!0u64
        & 0x7fff_ffff_ffff_ffffu64)) == 0x8000_0000_0000_0000u64) by (bit_vector);
    assert(0x8000_0000_0000_0000u64 ^ 0x8000_0000_0000_0000u64 == 0) by (bit_vector);
}

/// While reader slot `s` is held, no reader attempt on `s` succeeds, and
/// no step of another party clears the bit: another reader's attempt or
/// release, a writer's attempt or release. A successful attempt on `s`
/// leaves `s` held. So at most one reader holds a slot at a time.
pub proof fn lemma_one_reader_per_slot(w: u64, s: u64, t: u64)
    requires
        s < READER_CNT,
        t < READER_CNT,
    ensures
        read_outcome(w, t) == None::<ReadConflict> ==> slot_held(read_attempt_word(w, t), t),
        slot_held(w, s) ==> read_outcome(w, s) == Some(ReadConflict::SlotTaken),
        slot_held(w, s) ==> slot_held(read_attempt_word(w, t), s),
        slot_held(w, s) && t != s ==> slot_held(w ^ bit(t), s),
        slot_held(w, s) ==> slot_held(w ^ WRITER_MASK, s),
        slot_held(w, s) ==> slot_held(write_attempt_word(w), s),
{
    lemma_layout();
    lemma_bit_or_xor(w, t, s);
    lemma_bit_or_xor(w, t, t);
    lemma_bit_or_xor(w | bit(t), t, s);
    lemma_slot_vs_masks(w, s);
    lemma_writer_step_words(w);
    assert(((w | 0x8000_0000_0000_0000u64) & (1u64 << s) != 0) <==> (w & (1u64 << s) != 0))
        by (bit_vector)
        requires
            s < 63,
    ;
}

/// While the writer bit is set, no reader attempt and no other writer's
/// attempt succeeds, and no step of another party clears the bit. While a
/// reader slot is held, no writer attempt succeeds outright, and a waiting
/// writer still sees readers inside. So a write guard never coexists with
/// another guard.
pub proof fn lemma_writer_excludes(w: u64, s: u64, t: u64)
    requires
        s < READER_CNT,
        t < READER_CNT,
    ensures
        writer_held(w) ==> read_outcome(w, s) != None::<ReadConflict>,
        writer_held(w) ==> write_outcome(w) != None::<WriteConflict>,
        writer_held(w) ==> writer_held(read_attempt_word(w, s)),
        writer_held(w) ==> writer_held(w ^ bit(t)),
        writer_held(w) ==> writer_held(write_attempt_word(w)),
        slot_held(w, s) ==> write_outcome(w) != None::<WriteConflict>,
        slot_held(w, s) ==> readers_present(w),
{
    lemma_layout();
    lemma_slot_vs_masks(w, s);
    lemma_slot_vs_masks(w, t);
    lemma_slot_vs_masks(w | bit(s), s);
    lemma_writer_step_words(w);
}

spec fn low_bits(n: u64) -> u64 {
    ((1u64 << n) - 1) as u64
}

/// Two words that agree on each of the slots below `n` agree on all of them.
proof fn lemma_agree_below(w: u64, v: u64, n: u64)
    requires
        n <= 63,
        forall|i: u64| i < n ==> (#[trigger] slot_held(w, i) <==> slot_held(v, i)),
    ensures
        w & low_bits(n) == v & low_bits(n),
    decreases n,
{
    if n == 0 {
        assert(w & (((1u64 << 0u64) - 1) as u64) == 0) by (bit_vector);
        assert(v & (((1u64 << 0u64) - 1) as u64) == 0) by (bit_vector);
    } else {
        let m = (n - 1) as u64;
        lemma_agree_below(w, v, m);
        assert(slot_held(w, m) <==> slot_held(v, m));
        assert(((w & (((1u64 << m) - 1) as u64)) == (v & (((1u64 << m) - 1) as u64)) && ((w & (1u64
            << m) != 0) <==> (v & (1u64 << m) != 0))) ==> (w & (((1u64 << n) - 1) as u64)) == (v & (((
        1u64 << n) - 1) as u64))) by (bit_vector)
            requires
                m < 63,
                n == m + 1,
        ;
    }
}

proof fn lemma_readers_mask_bits()
    ensures
        low_bits(63) == READERS_MASK,
        forall|i: u64| i < 63 ==> #[trigger] slot_held(READERS_MASK, i),
        forall|i: u64| i < 63 ==> !#[trigger] slot_held(0, i),
{
    lemma_layout();
    assert(((1u64 << 63u64) - 1) as u64 == 0x7fff_ffff_ffff_ffffu64) by (bit_vector);
    assert forall|i: u64| i < 63 implies #[trigger] slot_held(READERS_MASK, i) by {
        assert(0x7fff_ffff_ffff_ffffu64 & (1u64 << i) != 0) by (bit_vector)
            requires
                i < 63,
        ;
    }
    assert forall|i: u64| i < 63 implies !#[trigger] slot_held(0, i) by {
        assert(0u64 & (1u64 << i) == 0) by (bit_vector);
    }
}

/// A fresh lock's word names no holder, and a word that names no holder is 0.
pub proof fn lemma_no_holders_zero_word(w: u64)
    ensures
        encodes(0, Set::empty(), false),
        encodes(w, Set::empty(), false) ==> w == 0,
{
    lemma_layout();
    lemma_readers_mask_bits();
    assert(0u64 & 0x8000_0000_0000_0000u64 == 0) by (bit_vector);
    assert forall|s: nat| s < READER_CNT implies (Set::<nat>::empty().contains(s) <==> slot_held(
        0,
        s as u64,
    )) by {
        assert(!slot_held(0, s as u64));
    }
    if encodes(w, Set::empty(), false) {
        assert forall|i: u64| i < 63 implies (#[trigger] slot_held(w, i) <==> slot_held(0, i)) by {
            assert(!Set::<nat>::empty().contains(i as nat));
        }
        lemma_agree_below(w, 0, 63);
        assert(0u64 & 0x7fff_ffff_ffff_ffffu64 == 0) by (bit_vector);
        lemma_writer_step_words(w);
    }
}

/// Every step keeps the word naming exactly the current holders: a
/// successful reader attempt adds its slot, a failed one leaves the word as
/// it was, a release removes its holder, a writer attempt succeeds only when
/// nobody holds the lock and then names the writer alone, and a writer that
/// must wait for readers holds the writer bit beside them until they are
/// gone. With the fresh word and `lemma_no_holders_zero_word`: once every
/// guard is dropped, the word is 0 again.
pub proof fn lemma_word_tracks_holders(w: u64, readers: Set<nat>, writer: bool, s: u64)
    requires
        encodes(w, readers, writer),
        s < READER_CNT,
    ensures
        read_outcome(w, s) == None::<ReadConflict> ==> encodes(
            read_attempt_word(w, s),
            readers.insert(s as nat),
            writer,
        ),
        read_outcome(w, s) != None::<ReadConflict> ==> read_attempt_word(w, s) == w,
        readers.contains(s as nat) ==> encodes(w ^ bit(s), readers.remove(s as nat), writer),
        writer ==> encodes(w ^ WRITER_MASK, readers, false),
        write_outcome(w) == None::<WriteConflict> ==> readers == Set::<nat>::empty() && !writer
            && encodes(write_attempt_word(w), Set::empty(), true),
        write_outcome(w) == Some(WriteConflict::WriterPresent) ==> write_attempt_word(w) == w,
        write_outcome(w) == Some(WriteConflict::ReadersPresent) ==> encodes(
            write_attempt_word(w),
            readers,
            true,
        ),
        writer && !readers_present(w) ==> readers == Set::<nat>::empty(),
{
    lemma_layout();
    lemma_writer_step_words(w);
    lemma_bit_or_xor(w, s, s);
    lemma_slot_vs_masks(w, s);
    if read_outcome(w, s) == None::<ReadConflict> {
        let w2 = w | bit(s);
        assert forall|t: nat| t < READER_CNT implies (readers.insert(s as nat).contains(t)
            <==> slot_held(w2, t as u64)) by {
            lemma_bit_or_xor(w, s, t as u64);
        }
    }
    if readers.contains(s as nat) {
        let w2 = w ^ bit(s);
        assert forall|t: nat| t < READER_CNT implies (readers.remove(s as nat).contains(t)
            <==> slot_held(w2, t as u64)) by {
            lemma_bit_or_xor(w, s, t as u64);
        }
    }
    if writer {
        assert forall|t: nat| t < READER_CNT implies (readers.contains(t) <==> slot_held(
            w ^ WRITER_MASK,
            t as u64,
        )) by {
            lemma_slot_vs_masks(w, t as u64);
        }
    }
    assert forall|t: nat| t < READER_CNT implies (readers.contains(t) <==> slot_held(
        w | WRITER_MASK,
        t as u64,
    )) by {
        let tt = t as u64;
        assert(((w | 0x8000_0000_0000_0000u64) & (1u64 << tt) != 0) <==> (w & (1u64 << tt) != 0))
            by (bit_vector)
            requires
                tt < 63,
        ;
    }
    if !readers_present(w) {
        assert forall|t: nat| !readers.contains(t) by {
            if readers.contains(t) {
                lemma_slot_vs_masks(w, t as u64);
            }
        }
        assert(readers =~= Set::<nat>::empty());
    }
    if write_outcome(w) == None::<WriteConflict> {
        lemma_no_holders_zero_word(w);
        assert(w == 0);
        lemma_round_trip(0);
        lemma_readers_mask_bits();
        assert forall|t: nat| t < READER_CNT implies (Set::<nat>::empty().contains(t) <==> slot_held(
            WRITER_MASK,
            t as u64,
        )) by {
            lemma_slot_vs_masks(0, t as u64);
            assert(0u64 ^ 0x8000_0000_0000_0000u64 == 0x8000_0000_0000_0000u64) by (bit_vector);
        }
    }
}

/// With every reader slot held and no writer, a writer attempt finds all of
/// `READERS_MASK` set, lights up nothing of its own, and must wait.
pub proof fn lemma_full_readers_block_writer(w: u64)
    requires
        forall|s: u64| s < READER_CNT ==> #[trigger] slot_held(w, s),
    ensures
        w & READERS_MASK == READERS_MASK,
        spurious_readers(w) == 0,
        !writer_held(w) ==> write_outcome(w) == Some(WriteConflict::ReadersPresent),
        writer_held(w) ==> write_outcome(w) == Some(WriteConflict::WriterPresent),
{
    lemma_layout();
    lemma_readers_mask_bits();
    lemma_agree_below(w, READERS_MASK, 63);
    assert(0x7fff_ffff_ffff_ffffu64 & 0x7fff_ffff_ffff_ffffu64 == 0x7fff_ffff_ffff_ffffu64)
        by (bit_vector);
    assert((w & 0x7fff_ffff_ffff_ffffu64 == 0x7fff_ffff_ffff_ffffu64) ==> (!w
        & 0x7fff_ffff_ffff_ffffu64 == 0)) by (bit_vector);
}

/// Reader ids wrap around: `READER_CNT` stands for slot 0, and adding
/// `READER_CNT` to any id names the same slot.
pub proof fn lemma_slot_wraps(reader_idx: usize)
    ensures
        slot_of(READER_CNT) == slot_of(0),
        reader_idx + READER_CNT <= usize::MAX ==> slot_of((reader_idx + READER_CNT) as usize)
            == slot_of(reader_idx),
{
}

/// The reader slots that are clear in `w`.
pub open spec fn free_slots(w: u64) -> Set<int> {
    set_int_range(0, READER_CNT as int).filter(|s: int| !slot_held(w, s as u64))
}

/// Reader attempts by the ids `ids`, one after another on a word that
/// starts at `w`, all succeed.
pub open spec fn all_admitted(w: u64, ids: Seq<usize>) -> bool
    decreases ids.len(),
{
    if ids.len() == 0 {
        true
    } else {
        let s = slot_of(ids[0]) as u64;
        read_outcome(w, s) == None::<ReadConflict> && all_admitted(
            read_attempt_word(w, s),
            ids.drop_first(),
        )
    }
}

proof fn lemma_admitted_fit(w: u64, ids: Seq<usize>)
    requires
        all_admitted(w, ids),
    ensures
        free_slots(w).finite(),
        ids.len() <= free_slots(w).len(),
    decreases ids.len(),
{
    lemma_int_range(0, READER_CNT as int);
    let fs = free_slots(w);
    assert(fs.subset_of(set_int_range(0, READER_CNT as int)));
    vstd::set_lib::lemma_set_subset_finite(set_int_range(0, READER_CNT as int), fs);
    if ids.len() > 0 {
        let s = slot_of(ids[0]) as u64;
        let w2 = read_attempt_word(w, s);
        lemma_admitted_fit(w2, ids.drop_first());
        assert(free_slots(w2) =~= fs.remove(s as int)) by {
            assert forall|t: int| #[trigger] free_slots(w2).contains(t) <==> fs.remove(s as int).contains(t) by {
                if 0 <= t < READER_CNT {
                    lemma_bit_or_xor(w, s, t as u64);
                }
            }
        }
        assert(fs.contains(s as int));
    }
}

/// Of `READER_CNT + 1` reader attempts made one after another, without a
/// release in between, at least one fails: two of the ids name the same slot,
/// or the slot one names was already held.
pub proof fn lemma_one_more_reader_collides(w: u64, ids: Seq<usize>)
    requires
        ids.len() == READER_CNT + 1,
    ensures
        !all_admitted(w, ids),
{
    if all_admitted(w, ids) {
        lemma_admitted_fit(w, ids);
        lemma_int_range(0, READER_CNT as int);
        lemma_len_subset(free_slots(w), set_int_range(0, READER_CNT as int));
    }
}

} // verus!
