use mdbx_db::database::to_c_name;
use mdbx_db::flags::{MDBX_CREATE, MDBX_DUPSORT, MDBX_NOOVERWRITE};
use mdbx_db::{Cursor, Database, DatabaseFlags, Error, Stat, WriteFlags, RO, RW};
use parking_lot::Mutex;
use std::cell::Cell;

#[test]
fn a_name_becomes_a_c_string() {
    assert_eq!(to_c_name("accounts"), Ok(b"accounts\0".to_vec()));
    assert_eq!(to_c_name(""), Ok(vec![0]));
    assert_eq!(to_c_name("é"), Ok(vec![0xc3, 0xa9, 0]));
}

#[test]
fn a_name_with_a_zero_byte_is_refused() {
    assert_eq!(to_c_name("ab\0cd"), Err(Error::InvalidInput));
    assert_eq!(to_c_name("\0"), Err(Error::InvalidInput));
    assert_eq!(to_c_name("tail\0"), Err(Error::InvalidInput));
}

#[test]
fn open_hands_name_and_flags_to_the_engine() {
    let txn = Mutex::new(41u64);
    let db = Database::<RW, u64>::new(&txn, Some("accounts"), MDBX_CREATE, |raw, name, flags| {
        assert_eq!(raw, 41);
        assert_eq!(name, Some(&b"accounts\0"[..]));
        assert_eq!(flags, 0x40000);
        (0, 5)
    })
    .unwrap();
    assert_eq!(db.dbi(), 5);
    assert!(std::ptr::eq(db.txn(), &txn));
}

#[test]
fn open_without_a_name_hands_no_name() {
    let txn = Mutex::new(0u64);
    let db = Database::<RO, u64>::new(&txn, None, 0, |_, name, flags| {
        assert_eq!(name, None);
        assert_eq!(flags, 0);
        (0, 1)
    })
    .unwrap();
    assert_eq!(db.dbi(), 1);
}

#[test]
fn open_refuses_a_bad_name_without_asking_the_engine() {
    let txn = Mutex::new(0u64);
    let asked = Cell::new(false);
    let r = Database::<RW, u64>::new(&txn, Some("bad\0name"), 0, |_, _, _| {
        asked.set(true);
        (0, 9)
    });
    assert_eq!(r.map(|db| db.dbi()), Err(Error::InvalidInput));
    assert!(!asked.get());
    assert!(!txn.is_locked());
}

#[test]
fn open_reports_the_engine_s_refusal() {
    let txn = Mutex::new(0u64);
    // too many databases
    let full = Database::<RW, u64>::new(&txn, Some("n"), MDBX_CREATE, |_, _, _| (-30791, 0));
    assert_eq!(full.map(|db| db.dbi()), Err(Error::ResourceExhausted));
    // creation under a read-only transaction
    let denied = Database::<RO, u64>::new(&txn, Some("n"), MDBX_CREATE, |_, _, _| (13, 0));
    assert_eq!(denied.map(|db| db.dbi()), Err(Error::PermissionDenied));
    // no such database: the identifier that came along is not used
    let missing = Database::<RO, u64>::new(&txn, Some("n"), 0, |_, _, _| (-30798, 77));
    assert_eq!(missing.map(|db| db.dbi()), Err(Error::NotFound));
    // a name that the engine cannot take
    let bad = Database::<RO, u64>::new(&txn, Some("n"), 0, |_, _, _| (-30781, 0));
    assert_eq!(bad.map(|db| db.dbi()), Err(Error::InvalidInput));
    // anything else keeps its code
    let other = Database::<RO, u64>::new(&txn, Some("n"), 0, |_, _, _| (-30784, 0));
    assert_eq!(other.map(|db| db.dbi()), Err(Error::Engine(-30784)));
}

#[test]
fn open_takes_a_positive_answer_as_success() {
    let txn = Mutex::new(0u64);
    let db = Database::<RO, u64>::new(&txn, None, 0, |_, _, _| (-1, 3)).unwrap();
    assert_eq!(db.dbi(), 3);
}

#[test]
fn the_free_list_handle_needs_no_engine() {
    let txn = Mutex::new(0u64);
    let db = Database::<RO, u64>::freelist_db(&txn);
    assert_eq!(db.dbi(), 0);
    assert!(std::ptr::eq(db.txn(), &txn));
    assert!(!txn.is_locked());
}

#[test]
fn many_handles_share_one_transaction() {
    let txn = Mutex::new(3u64);
    let a = Database::<RO, u64>::freelist_db(&txn);
    let b = Database::<RO, u64>::new(&txn, None, 0, |_, _, _| (0, 1)).unwrap();
    assert!(std::ptr::eq(a.txn(), b.txn()));
    assert_eq!(a.stat(|raw, dbi| (0, stat_of(raw + dbi as u64))).unwrap().entries, 3);
    assert_eq!(b.stat(|raw, dbi| (0, stat_of(raw + dbi as u64))).unwrap().entries, 4);
}

fn stat_of(entries: u64) -> Stat {
    Stat { page_size: 4096, depth: 1, branch_pages: 0, leaf_pages: 1, overflow_pages: 0, entries }
}

#[test]
fn flags_are_read_from_the_raw_word() {
    let txn = Mutex::new(8u64);
    let db = Database::<RO, u64>::new(&txn, None, 0, |_, _, _| (0, 6)).unwrap();
    let flags = db
        .db_flags(|raw, dbi| {
            assert_eq!((raw, dbi), (8, 6));
            (0, MDBX_DUPSORT)
        })
        .unwrap();
    assert_eq!(flags.bits(), 0x04);
    assert_eq!(flags, DatabaseFlags::from_bits_truncate(0x04));
    // bits without a name are dropped
    assert_eq!(db.db_flags(|_, _| (0, 0x8000_0015)).unwrap().bits(), 0x14);
}

#[test]
fn flags_fail_with_the_engine() {
    let txn = Mutex::new(0u64);
    let db = Database::<RO, u64>::freelist_db(&txn);
    // a stale identifier; the word that came along is not used
    assert_eq!(db.db_flags(|_, _| (-30780, 0x04)), Err(Error::Engine(-30780)));
    assert_eq!(db.db_flags(|_, _| (22, 0)), Err(Error::InvalidInput));
}

#[test]
fn stat_hands_the_snapshot_on() {
    let txn = Mutex::new(2u64);
    let db = Database::<RO, u64>::new(&txn, None, 0, |_, _, _| (0, 4)).unwrap();
    let snapshot = Stat {
        page_size: 4096,
        depth: 2,
        branch_pages: 1,
        leaf_pages: 3,
        overflow_pages: 5,
        entries: 120,
    };
    let stat = db
        .stat(|raw, dbi| {
            assert_eq!((raw, dbi), (2, 4));
            (0, snapshot)
        })
        .unwrap();
    assert_eq!(stat, snapshot);
    assert_eq!(stat.entries, 120);
    assert_eq!(stat.page_size, 4096);
    assert_eq!(db.stat(|_, _| (-30782, snapshot)), Err(Error::Engine(-30782)));
}

#[test]
fn reserve_adds_the_reservation_bit() {
    let txn = Mutex::new(1u64);
    let db = Database::<RW, u64>::new(&txn, None, 0, |_, _, _| (0, 2)).unwrap();
    let mut page = [0xaa_u8; 4];
    let view = &mut page[..];
    let flags = WriteFlags::from_bits_truncate(MDBX_NOOVERWRITE);
    let buf = db
        .reserve(b"alice", 4, flags, move |raw, dbi, key, len, bits| {
            assert_eq!((raw, dbi), (1, 2));
            assert_eq!(key, b"alice");
            assert_eq!(len, 4);
            assert_eq!(bits, 0x10010);
            (0, view)
        })
        .unwrap();
    assert_eq!(buf.len(), 4);
    buf.copy_from_slice(&[0, 0, 0, 1]);
    assert_eq!(page, [0, 0, 0, 1]);
}

#[test]
fn reserve_with_no_flags_asks_for_a_reservation_only() {
    let txn = Mutex::new(1u64);
    let db = Database::<RW, u64>::freelist_db(&txn);
    let mut page = [0u8; 0];
    let view = &mut page[..];
    let buf = db
        .reserve(b"", 0, WriteFlags::empty(), move |_, dbi, key, len, bits| {
            assert_eq!(dbi, 0);
            assert_eq!(key, b"");
            assert_eq!(len, 0);
            assert_eq!(bits, 0x10000);
            (0, view)
        })
        .unwrap();
    assert!(buf.is_empty());
}

#[test]
fn reserve_fails_with_the_engine() {
    let txn = Mutex::new(1u64);
    let db = Database::<RW, u64>::freelist_db(&txn);
    let mut a = [7u8; 2];
    let mut b = [7u8; 2];
    let mut c = [7u8; 2];
    let (va, vb, vc) = (&mut a[..], &mut b[..], &mut c[..]);
    // map full
    let full = db.reserve(b"k", 2, WriteFlags::empty(), move |_, _, _, _, _| (-30792, va));
    assert_eq!(full.map(|v| v.len()), Err(Error::ResourceExhausted));
    // key too large
    let large = db.reserve(b"k", 2, WriteFlags::empty(), move |_, _, _, _, _| (-30781, vb));
    assert_eq!(large.map(|v| v.len()), Err(Error::InvalidInput));
    // transaction not writable
    let denied = db.reserve(b"k", 2, WriteFlags::empty(), move |_, _, _, _, _| (13, vc));
    assert_eq!(denied.map(|v| v.len()), Err(Error::PermissionDenied));
    assert_eq!((a, b, c), ([7, 7], [7, 7], [7, 7]));
}

#[test]
fn del_hands_key_and_value_on() {
    let txn = Mutex::new(5u64);
    let db = Database::<RW, u64>::new(&txn, None, 0, |_, _, _| (0, 3)).unwrap();
    let all = db.del(b"key", None, |raw, dbi, key, data| {
        assert_eq!((raw, dbi), (5, 3));
        assert_eq!(key, b"key");
        assert_eq!(data, None);
        0
    });
    assert_eq!(all, Ok(()));
    let one = db.del(b"key", Some(b"value"), |_, dbi, key, data| {
        assert_eq!(dbi, 3);
        assert_eq!(key, b"key");
        assert_eq!(data, Some(&b"value"[..]));
        0
    });
    assert_eq!(one, Ok(()));
    // an empty value is still a value
    let empty = db.del(b"key", Some(b""), |_, _, _, data| {
        assert_eq!(data, Some(&b""[..]));
        0
    });
    assert_eq!(empty, Ok(()));
}

#[test]
fn del_reports_a_missing_entry() {
    let txn = Mutex::new(5u64);
    let db = Database::<RW, u64>::freelist_db(&txn);
    assert_eq!(db.del(b"key", None, |_, _, _, _| -30798), Err(Error::NotFound));
    assert_eq!(db.del(b"key", Some(b"v"), |_, _, _, _| -30798), Err(Error::NotFound));
    assert_eq!(db.del(b"key", None, |_, _, _, _| -30780), Err(Error::Engine(-30780)));
    assert_eq!(db.del(b"key", None, |_, _, _, _| 13), Err(Error::PermissionDenied));
    assert_eq!(db.del(b"key", None, |_, _, _, _| -1), Ok(()));
}

#[test]
fn clear_keeps_the_database() {
    let txn = Mutex::new(5u64);
    let db = Database::<RW, u64>::new(&txn, None, 0, |_, _, _| (0, 3)).unwrap();
    let r = db.clear_db(|raw, dbi, delete| {
        assert_eq!((raw, dbi), (5, 3));
        assert!(!delete);
        0
    });
    assert_eq!(r, Ok(()));
    // the handle is still there
    assert_eq!(db.dbi(), 3);
    assert_eq!(db.clear_db(|_, _, _| -30780), Err(Error::Engine(-30780)));
}

#[test]
fn drop_removes_the_database() {
    let txn = Mutex::new(5u64);
    let db = Database::<RW, u64>::new(&txn, None, 0, |_, _, _| (0, 3)).unwrap();
    let r = db.drop_db(|raw, dbi, delete| {
        assert_eq!((raw, dbi), (5, 3));
        assert!(delete);
        0
    });
    assert_eq!(r, Ok(()));
    let db = Database::<RW, u64>::new(&txn, None, 0, |_, _, _| (0, 3)).unwrap();
    assert_eq!(db.drop_db(|_, _, _| -30412), Err(Error::Engine(-30412)));
}

#[test]
fn a_cursor_shares_the_handle_s_transaction() {
    let txn = Mutex::new(5u64);
    let db = Database::<RO, u64>::new(&txn, None, 0, |_, _, _| (0, 3)).unwrap();
    let cursor: Cursor<RO, u64, u32> = db
        .cursor(|raw, dbi| {
            assert_eq!((raw, dbi), (5, 3));
            (0, 0xc0de)
        })
        .unwrap();
    assert_eq!(cursor.cursor(), 0xc0de);
    assert!(std::ptr::eq(cursor.txn(), db.txn()));
    let direct = Cursor::<RO, u64, u32>::new(&db, |_, dbi| (0, dbi + 1)).unwrap();
    assert_eq!(direct.cursor(), 4);
}

#[test]
fn a_cursor_fails_with_the_engine() {
    let txn = Mutex::new(5u64);
    let db = Database::<RW, u64>::freelist_db(&txn);
    let r = db.cursor(|_, _| (12, 0u32));
    assert_eq!(r.map(|c| c.cursor()), Err(Error::ResourceExhausted));
    let r = Cursor::<RW, u64, u32>::new(&db, |_, _| (-30780, 0));
    assert_eq!(r.map(|c| c.cursor()), Err(Error::Engine(-30780)));
}

#[test]
fn every_operation_runs_under_the_lock_and_frees_it() {
    let txn = Mutex::new(5u64);
    let db = Database::<RW, u64>::new(&txn, Some("t"), 0, |_, _, _| {
        assert!(txn.is_locked());
        (0, 2)
    })
    .unwrap();
    assert!(!txn.is_locked());
    db.db_flags(|_, _| {
        assert!(txn.is_locked());
        (0, 0)
    })
    .unwrap();
    assert!(!txn.is_locked());
    db.stat(|_, _| {
        assert!(txn.is_locked());
        (0, stat_of(0))
    })
    .unwrap();
    assert!(!txn.is_locked());
    db.del(b"k", None, |_, _, _, _| {
        assert!(txn.is_locked());
        0
    })
    .unwrap();
    assert!(!txn.is_locked());
    let mut page = [0u8; 1];
    let view = &mut page[..];
    db.reserve(b"k", 1, WriteFlags::empty(), |_, _, _, _, _| {
        assert!(txn.is_locked());
        (0, view)
    })
    .unwrap();
    assert!(!txn.is_locked());
    db.cursor(|_, _| {
        assert!(txn.is_locked());
        (0, 0u8)
    })
    .unwrap();
    assert!(!txn.is_locked());
    db.clear_db(|_, _, _| {
        assert!(txn.is_locked());
        0
    })
    .unwrap();
    assert!(!txn.is_locked());
    db.drop_db(|_, _, _| {
        assert!(txn.is_locked());
        0
    })
    .unwrap();
    assert!(!txn.is_locked());
}

#[test]
fn operations_leave_the_native_transaction_alone() {
    let txn = Mutex::new(0xfeed_u64);
    let db = Database::<RW, u64>::new(&txn, Some("t"), 0, |_, _, _| (0, 2)).unwrap();
    db.db_flags(|_, _| (0, 0)).unwrap();
    db.stat(|_, _| (-30780, stat_of(0))).unwrap_err();
    db.del(b"k", None, |_, _, _, _| 0).unwrap();
    db.clear_db(|_, _, _| 0).unwrap();
    db.cursor(|_, _| (0, 1u8)).unwrap();
    db.drop_db(|_, _, _| 0).unwrap();
    assert_eq!(*txn.lock(), 0xfeed);
}

fn shared_between_threads<H: Send + Sync>(_: &H) {}

#[test]
fn handles_can_be_shared_between_threads() {
    let txn = Mutex::new(5u64);
    let ro = Database::<RO, u64>::freelist_db(&txn);
    let rw = Database::<RW, u64>::freelist_db(&txn);
    shared_between_threads(&ro);
    shared_between_threads(&rw);
    let cursor = ro.cursor(|_, _| (0, 1u64)).unwrap();
    shared_between_threads(&cursor);
}
