//! A reader-writer spinlock whose whole state is one 64-bit word: bit `i`
//! of the word is reader slot `i`, and the top bit is the writer.
pub mod arch;
pub mod word;
pub mod helpers;
pub mod rw_lock;
pub mod protocol;

pub use arch::{Architecture, READER_CNT, READERS_MASK, WRITER_IDX, WRITER_MASK};
pub use helpers::random_reader_idx;
pub use rw_lock::{LockMany, PendingWrite, ReadLockGuard, RwLock, WriteAttempt, WriteLockGuard};
pub use word::{ReadConflict, WriteConflict};
