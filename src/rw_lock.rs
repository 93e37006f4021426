//! The lock itself, its guards, and the all-or-nothing acquisition of many
//! locks. Every operation here is one attempt: it never waits. A caller that
//! must have the lock retries, and learns from `read_may_retry`,
//! `write_may_retry` and `PendingWrite::try_complete` when a retry can
//! succeed.
use vstd::prelude::*;
use std::sync::atomic::AtomicU64;
use crate::arch::{READER_CNT, WRITER_IDX};
use crate::helpers::{
    atomic_clear, atomic_load, atomic_reader_lock, atomic_readers_free, atomic_unlock,
    atomic_writer_free, atomic_writer_lock,
};
use crate::word::{
    read_conflict, read_may_retry, read_outcome, readers_present, reduce_slot, slot_of, spurious_readers,
    write_outcome, writer_held, ReadConflict, WriteConflict,
};

verus! {

/// A reader-writer lock over one 64-bit word: up to `READER_CNT` readers,
/// each in its own slot, or one writer.
pub struct RwLock {
    lock: AtomicU64,
}

/// Holds reader slot `slot()` of a lock; releases it when dropped.
pub struct ReadLockGuard<'a> {
    lock: &'a RwLock,
    idx: usize,
}

/// Holds the writer bit of a lock; releases it when dropped.
pub struct WriteLockGuard<'a> {
    lock: &'a RwLock,
    idx: usize,
}

/// A writer that holds the writer bit, so that no new reader enters, and
/// waits for the readers already inside to leave. Dropping it gives up.
pub struct PendingWrite<'a> {
    guard: WriteLockGuard<'a>,
}

/// The result of one writer attempt.
pub enum WriteAttempt<'a> {
    /// The lock is ours.
    Acquired(WriteLockGuard<'a>),
    /// The writer bit is ours; readers are still inside.
    Pending(PendingWrite<'a>),
    /// Another writer holds the lock; nothing of ours is left in the word.
    Busy,
}

/// The guards of one all-or-nothing acquisition, in the order of the
/// locks asked for.
pub struct LockMany<'a> {
    pub read: Vec<ReadLockGuard<'a>>,
    pub write: Vec<WriteLockGuard<'a>>,
}

/// How a reader attempt ended, as `read_outcome` names it.
pub open spec fn read_result_outcome(r: Result<ReadLockGuard, ReadConflict>) -> Option<ReadConflict> {
    match r {
        Ok(_) => None,
        Err(c) => Some(c),
    }
}

/// How a writer attempt ended, as `write_outcome` names it.
pub open spec fn write_attempt_outcome(r: WriteAttempt) -> Option<WriteConflict> {
    match r {
        WriteAttempt::Acquired(_) => None,
        WriteAttempt::Pending(_) => Some(WriteConflict::ReadersPresent),
        WriteAttempt::Busy => Some(WriteConflict::WriterPresent),
    }
}

impl<'a> ReadLockGuard<'a> {
    #[verifier::type_invariant]
    closed spec fn inv(self) -> bool {
        self.idx < READER_CNT
    }

    /// The lock this guard holds.
    pub closed spec fn owner(self) -> &'a RwLock {
        self.lock
    }

    /// The slot this guard holds.
    pub closed spec fn spec_slot(self) -> usize {
        self.idx
    }

    /// The slot this guard holds.
    pub fn slot(&self) -> (r: usize)
        ensures
            r == self.spec_slot(),
            r < READER_CNT,
    {
        proof {
            use_type_invariant(self);
        }
        self.idx
    }
}

impl<'a> WriteLockGuard<'a> {
    #[verifier::type_invariant]
    closed spec fn inv(self) -> bool {
        self.idx == WRITER_IDX
    }

    /// The lock this guard holds.
    pub closed spec fn owner(self) -> &'a RwLock {
        self.lock
    }
}

impl<'a> PendingWrite<'a> {
    /// The lock whose writer bit this holds.
    pub closed spec fn owner(self) -> &'a RwLock {
        self.guard.owner()
    }

    /// Becomes the write guard once no reader slot is marked; otherwise
    /// hands itself back.
    pub fn try_complete(self) -> (r: Result<WriteLockGuard<'a>, PendingWrite<'a>>)
        ensures
            match r {
                Ok(g) => g.owner() == self.owner(),
                Err(p) => p.owner() == self.owner(),
            },
    {
        if atomic_readers_free(&self.guard.lock.lock) {
            Ok(self.guard)
        } else {
            Err(self)
        }
    }
}

impl<'a> Drop for ReadLockGuard<'a> {
    fn drop(&mut self)
        opens_invariants none
        no_unwind
    {
        proof {
            use_type_invariant(&*self);
        }
        atomic_unlock(&self.lock.lock, self.idx);
    }
}

impl<'a> Drop for WriteLockGuard<'a> {
    fn drop(&mut self)
        opens_invariants none
        no_unwind
    {
        proof {
            use_type_invariant(&*self);
        }
        atomic_unlock(&self.lock.lock, self.idx);
    }
}

impl RwLock {
    /// A lock that nobody holds.
    pub fn new() -> RwLock {
        RwLock { lock: AtomicU64::new(0) }
    }

    /// The word now; for inspection only, since it may change at once.
    pub fn state(&self) -> u64 {
        atomic_load(&self.lock)
    }

    /// Whether a reader with id `reader_idx`, turned back by `c`, can try
    /// again now.
    pub fn read_may_retry(&self, reader_idx: usize, c: ReadConflict) -> bool {
        read_may_retry(atomic_load(&self.lock), reduce_slot(reader_idx), c)
    }

    /// Whether a writer turned back by another writer can try again now.
    pub fn write_may_retry(&self) -> bool {
        atomic_writer_free(&self.lock)
    }

    /// One reader attempt on the slot that `reader_idx` reduces to.
    /// On `SlotTaken` the other reader's bit is left alone; on
    /// `WriterPresent` the attempt has cleared the bit it set.
    pub fn try_read<'a>(&'a self, reader_idx: usize) -> (r: Result<ReadLockGuard<'a>, ReadConflict>)
        ensures
            exists|prev: u64|
                read_result_outcome(r) == #[trigger] read_outcome(prev, slot_of(reader_idx) as u64),
            r matches Ok(g) ==> g.owner() == self && g.spec_slot() == slot_of(reader_idx),
    {
        let idx = reduce_slot(reader_idx);
        let (prev, _, _) = atomic_reader_lock(&self.lock, idx);
        match read_conflict(prev, idx) {
            None => Ok(ReadLockGuard { lock: self, idx }),
            Some(ReadConflict::WriterPresent) => {
                atomic_unlock(&self.lock, idx);
                Err(ReadConflict::WriterPresent)
            },
            Some(ReadConflict::SlotTaken) => Err(ReadConflict::SlotTaken),
        }
    }

    /// One writer attempt. The reader slots that the attempt lit up itself
    /// are cleared again before it returns.
    pub fn try_write<'a>(&'a self) -> (r: WriteAttempt<'a>)
        ensures
            exists|prev: u64| write_attempt_outcome(r) == #[trigger] write_outcome(prev),
            r matches WriteAttempt::Acquired(g) ==> g.owner() == self,
            r matches WriteAttempt::Pending(p) ==> p.owner() == self,
    {
        let res = atomic_writer_lock(&self.lock);
        let ghost prev = choose|prev: u64|
            res == (spurious_readers(prev), !writer_held(prev), readers_present(prev));
        let (spurious, owned, block) = res;
        if spurious != 0 {
            atomic_clear(&self.lock, spurious);
        }
        let r = if !owned {
            WriteAttempt::Busy
        } else if block {
            WriteAttempt::Pending(PendingWrite { guard: WriteLockGuard { lock: self, idx: WRITER_IDX } })
        } else {
            WriteAttempt::Acquired(WriteLockGuard { lock: self, idx: WRITER_IDX })
        };
        assert(write_attempt_outcome(r) == write_outcome(prev));
        r
    }
}


impl RwLock {
    /// One all-or-nothing attempt: reader slot `slot_of(reader_idx)` of every
    /// lock in `read`, in order, then the writer bit of every lock in `write`,
    /// in order. At the first conflict every guard taken so far is dropped,
    /// which clears its bit, and the result is `None`: no bit of this attempt
    /// stays in any word. The two lists must not share a lock.
    pub fn try_lock_many<'a>(reader_idx: usize, read: &Vec<&'a RwLock>, write: &Vec<&'a RwLock>) -> (r:
        Option<LockMany<'a>>)
        ensures
            read@.len() == 0 && write@.len() == 0 ==> r is Some,
            r is None ==> read@.len() + write@.len() > 0,
            r matches Some(m) ==> {
                &&& m.read@.len() == read@.len()
                &&& m.write@.len() == write@.len()
                &&& forall|i: int|
                    0 <= i < read@.len() ==> #[trigger] m.read@[i].owner() == read@[i]
                        && m.read@[i].spec_slot() == slot_of(reader_idx)
                &&& forall|i: int| 0 <= i < write@.len() ==> #[trigger] m.write@[i].owner() == write@[i]
            },
    {
        let mut reads: Vec<ReadLockGuard<'a>> = Vec::new();
        let mut i: usize = 0;
        while i < read.len()
            invariant
                i <= read@.len(),
                reads@.len() == i,
                forall|j: int|
                    0 <= j < i ==> #[trigger] reads@[j].owner() == read@[j]
                        && reads@[j].spec_slot() == slot_of(reader_idx),
            decreases read@.len() - i,
        {
            match read[i].try_read(reader_idx) {
                Ok(g) => reads.push(g),
                Err(_) => return None,
            }
            i = i + 1;
        }
        let mut writes: Vec<WriteLockGuard<'a>> = Vec::new();
        let mut k: usize = 0;
        while k < write.len()
            invariant
                k <= write@.len(),
                writes@.len() == k,
                forall|j: int| 0 <= j < k ==> #[trigger] writes@[j].owner() == write@[j],
            decreases write@.len() - k,
        {
            match write[k].try_write() {
                WriteAttempt::Acquired(g) => writes.push(g),
                _ => return None,
            }
            k = k + 1;
        }
        Some(LockMany { read: reads, write: writes })
    }
}

} // verus!
