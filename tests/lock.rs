use spin_bitwise::{
    ReadConflict, RwLock, WriteAttempt, READERS_MASK, READER_CNT, WRITER_MASK,
};

#[test]
fn fresh_lock_is_idle() {
    assert_eq!(RwLock::new().state(), 0);
}

#[test]
fn read_guard_marks_its_slot() {
    let lock = RwLock::new();
    {
        let g = lock.try_read(5).ok().unwrap();
        assert_eq!(g.slot(), 5);
        assert_eq!(lock.state(), 1 << 5);
    }
    assert_eq!(lock.state(), 0);
}

#[test]
fn write_guard_marks_writer_bit_only() {
    let lock = RwLock::new();
    {
        let w = lock.try_write();
        assert!(matches!(w, WriteAttempt::Acquired(_)));
        assert_eq!(lock.state(), 1 << 63);
    }
    assert_eq!(lock.state(), 0);
}

#[test]
fn reader_id_wraps_to_slot_zero() {
    let lock = RwLock::new();
    let g = lock.try_read(READER_CNT).ok().unwrap();
    assert_eq!(g.slot(), 0);
    assert_eq!(lock.state(), 1);
    assert_eq!(lock.try_read(0).err(), Some(ReadConflict::SlotTaken));
}

#[test]
fn one_reader_per_slot() {
    let lock = RwLock::new();
    let g = lock.try_read(3).ok().unwrap();
    assert_eq!(lock.try_read(3).err(), Some(ReadConflict::SlotTaken));
    assert_eq!(lock.state(), 1 << 3);
    assert!(!lock.read_may_retry(3, ReadConflict::SlotTaken));
    let h = lock.try_read(4).ok().unwrap();
    assert_eq!(lock.state(), (1 << 3) | (1 << 4));
    drop(g);
    assert!(lock.read_may_retry(3, ReadConflict::SlotTaken));
    drop(h);
    assert_eq!(lock.state(), 0);
}

#[test]
fn writer_excludes_readers_and_writers() {
    let lock = RwLock::new();
    let w = match lock.try_write() {
        WriteAttempt::Acquired(g) => g,
        _ => panic!("fresh lock must be free"),
    };
    assert_eq!(lock.try_read(9).err(), Some(ReadConflict::WriterPresent));
    assert_eq!(lock.state(), WRITER_MASK);
    assert!(matches!(lock.try_write(), WriteAttempt::Busy));
    assert_eq!(lock.state(), WRITER_MASK);
    assert!(!lock.write_may_retry());
    assert!(!lock.read_may_retry(9, ReadConflict::WriterPresent));
    drop(w);
    assert!(lock.write_may_retry());
    assert_eq!(lock.state(), 0);
}

#[test]
fn writer_waits_for_readers_inside() {
    let lock = RwLock::new();
    let r = lock.try_read(2).ok().unwrap();
    let mut pending = match lock.try_write() {
        WriteAttempt::Pending(p) => p,
        _ => panic!("a reader is inside"),
    };
    assert_eq!(lock.state(), WRITER_MASK | (1 << 2));
    // no new reader enters while the writer waits
    assert_eq!(lock.try_read(8).err(), Some(ReadConflict::WriterPresent));
    pending = match pending.try_complete() {
        Ok(_) => panic!("the reader has not left"),
        Err(p) => p,
    };
    drop(r);
    let w = match pending.try_complete() {
        Ok(g) => g,
        Err(_) => panic!("the reader has left"),
    };
    assert_eq!(lock.state(), WRITER_MASK);
    drop(w);
    assert_eq!(lock.state(), 0);
}

#[test]
fn abandoned_pending_writer_releases_its_bit() {
    let lock = RwLock::new();
    let r = lock.try_read(1).ok().unwrap();
    let p = lock.try_write();
    assert!(matches!(p, WriteAttempt::Pending(_)));
    drop(p);
    assert_eq!(lock.state(), 1 << 1);
    drop(r);
    assert_eq!(lock.state(), 0);
}

#[test]
fn all_slots_held_block_writer() {
    let lock = RwLock::new();
    let guards: Vec<_> = (0..READER_CNT).map(|i| lock.try_read(i).ok().unwrap()).collect();
    assert_eq!(lock.state(), READERS_MASK);
    let p = lock.try_write();
    assert!(matches!(p, WriteAttempt::Pending(_)));
    assert_eq!(lock.state(), u64::MAX);
    drop(p);
    assert_eq!(lock.state(), READERS_MASK);
    drop(guards);
    assert_eq!(lock.state(), 0);
}

#[test]
fn one_more_reader_than_slots_collides() {
    let lock = RwLock::new();
    let mut held = Vec::new();
    let mut failures = 0;
    for id in 0..=READER_CNT {
        match lock.try_read(id) {
            Ok(g) => held.push(g),
            Err(c) => {
                assert_eq!(c, ReadConflict::SlotTaken);
                failures += 1;
            }
        }
    }
    assert_eq!(held.len(), READER_CNT);
    assert_eq!(failures, 1);
}

#[test]
fn lock_many_of_nothing() {
    let none: Vec<&RwLock> = Vec::new();
    let m = RwLock::try_lock_many(0, &none, &none).unwrap();
    assert!(m.read.is_empty());
    assert!(m.write.is_empty());
}

#[test]
fn lock_many_takes_every_lock() {
    let a = RwLock::new();
    let b = RwLock::new();
    let c = RwLock::new();
    {
        let m = RwLock::try_lock_many(4, &vec![&a, &b], &vec![&c]).unwrap();
        assert_eq!(m.read.len(), 2);
        assert_eq!(m.write.len(), 1);
        assert_eq!(m.read[0].slot(), 4);
        assert_eq!(a.state(), 1 << 4);
        assert_eq!(b.state(), 1 << 4);
        assert_eq!(c.state(), WRITER_MASK);
    }
    assert_eq!((a.state(), b.state(), c.state()), (0, 0, 0));
}

#[test]
fn lock_many_holds_nothing_after_a_conflict() {
    let a = RwLock::new();
    let b = RwLock::new();
    let c = RwLock::new();
    let d = RwLock::new();
    // a writer on `b` stops the reads after `a` was taken
    let wb = match b.try_write() {
        WriteAttempt::Acquired(g) => g,
        _ => panic!("fresh lock must be free"),
    };
    assert!(RwLock::try_lock_many(1, &vec![&a, &b], &vec![&c]).is_none());
    assert_eq!((a.state(), b.state(), c.state()), (0, WRITER_MASK, 0));
    drop(wb);
    // a reader in `d` stops the writes after `c` was taken
    let rd = d.try_read(9).ok().unwrap();
    assert!(RwLock::try_lock_many(1, &vec![&a], &vec![&c, &d]).is_none());
    assert_eq!((a.state(), c.state(), d.state()), (0, 0, 1 << 9));
    drop(rd);
    let m = RwLock::try_lock_many(1, &vec![&a], &vec![&c, &d]).unwrap();
    assert_eq!(d.state(), WRITER_MASK);
    drop(m);
    assert_eq!((a.state(), c.state(), d.state()), (0, 0, 0));
}

#[test]
fn lock_many_readers_share_with_other_slots() {
    let a = RwLock::new();
    let other = a.try_read(2).ok().unwrap();
    let none: Vec<&RwLock> = Vec::new();
    let m = RwLock::try_lock_many(3, &vec![&a], &none).unwrap();
    assert_eq!(a.state(), (1 << 2) | (1 << 3));
    // the same slot collides
    assert!(RwLock::try_lock_many(3, &vec![&a], &none).is_none());
    assert_eq!(a.state(), (1 << 2) | (1 << 3));
    drop(m);
    drop(other);
    assert_eq!(a.state(), 0);
}
