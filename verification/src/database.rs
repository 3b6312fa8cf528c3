//! Database handles.
//!
//! A handle names one database inside one transaction. It borrows the
//! transaction's mutex, so it cannot outlive the transaction, and its type
//! carries the transaction's kind, so the mutating operations exist only on
//! handles of a read-write transaction.
//!
//! The engine is reached through native operations that the caller supplies
//! with each call: closures that receive the native transaction and the
//! arguments this layer prepared, call the engine, and return its status with
//! whatever it wrote back. Each operation runs under [`txn_execute`], and its
//! status becomes a typed result at once.

use crate::cursor::Cursor;
use crate::error::{is_success, mdbx_result, status_result, unit_result, Error, MDBX_NOTFOUND};
use crate::flags::{
    DatabaseFlags, WriteFlags, DATABASE_FLAGS_STORED, MDBX_RESERVE, WRITE_FLAGS_ALL,
};
use crate::stat::Stat;
use crate::transaction::{txn_execute, TransactionKind, RW};
use core::marker::PhantomData;
use parking_lot::Mutex;
use vstd::prelude::*;
use vstd::string::StringSliceAdditionalSpecFns;

verus! {

/// Whether the engine can take a name: it is given as a C string, so it must
/// hold no zero byte.
pub open spec fn valid_name(name: Seq<u8>) -> bool {
    forall|i: int| 0 <= i < name.len() ==> name[i] != 0u8
}

/// A name as the engine takes it: its bytes, then the terminating zero.
pub open spec fn c_name(name: Seq<u8>) -> Seq<u8> {
    name.push(0u8)
}

/// Whether `arg` is what the engine is given for `name`: nothing for the
/// unnamed database, else the name as a C string.
pub open spec fn name_argument(arg: Option<&[u8]>, name: Option<&str>) -> bool {
    match (arg, name) {
        (None, None) => true,
        (Some(bytes), Some(n)) => bytes@ == c_name(n.spec_bytes()),
        _ => false,
    }
}

/// The engine reads a C string up to its first zero byte. For a valid name
/// that is the terminator, so the engine reads the name itself, byte for
/// byte; for any other name it would stop early and read another name.
pub proof fn lemma_c_name_reads_back(name: Seq<u8>)
    ensures
        c_name(name).len() == name.len() + 1,
        c_name(name).subrange(0, name.len() as int) == name,
        c_name(name)[name.len() as int] == 0u8,
        valid_name(name) <==> (forall|i: int| 0 <= i < name.len() ==> c_name(name)[i] != 0u8),
        !valid_name(name) ==> exists|i: int| 0 <= i < name.len() && c_name(name)[i] == 0u8,
{
    assert(c_name(name).subrange(0, name.len() as int) =~= name);
    assert(forall|i: int| 0 <= i < name.len() ==> c_name(name)[i] == name[i]);
    if !valid_name(name) {
        let i = choose|i: int| 0 <= i < name.len() && name[i] == 0u8;
        assert(c_name(name)[i] == 0u8);
    }
}

/// Whether a name is refused before the engine is asked.
pub open spec fn refused_name(name: Option<&str>) -> bool {
    name matches Some(n) && !valid_name(n.spec_bytes())
}

/// Turns a database name into a C string, or refuses it.
pub fn to_c_name(name: &str) -> (r: Result<Vec<u8>, Error>)
    ensures
        valid_name(name.spec_bytes()) ==> (r matches Ok(bytes) && bytes@ == c_name(
            name.spec_bytes(),
        )),
        !valid_name(name.spec_bytes()) ==> r == Err::<Vec<u8>, Error>(Error::InvalidInput),
{
    let bytes = name.as_bytes();
    let mut out: Vec<u8> = Vec::new();
    let mut i: usize = 0;
    while i < bytes.len()
        invariant
            i <= bytes.len(),
            bytes@ == name.spec_bytes(),
            out@ == bytes@.subrange(0, i as int),
            forall|j: int| 0 <= j < i ==> bytes@[j] != 0u8,
        decreases bytes.len() - i,
    {
        let b: u8 = bytes[i];
        if b == 0 {
            return Err(Error::InvalidInput);
        }
        out.push(b);
        i += 1;
        assert(out@ == bytes@.subrange(0, i as int));
    }
    assert(bytes@.subrange(0, i as int) == bytes@);
    out.push(0);
    Ok(out)
}

/// A handle to one database in a transaction of kind `K`, whose native
/// transaction, a plain value of type `T`, lives behind a mutex.
#[derive(Debug)]
#[verifier::reject_recursive_types(K)]
#[verifier::reject_recursive_types(T)]
pub struct Database<'txn, K: TransactionKind, T> {
    dbi: u32,
    txn: &'txn Mutex<T>,
    _marker: PhantomData<&'txn K>,
}

impl<'txn, K: TransactionKind, T: Copy> Database<'txn, K, T> {
    /// The identifier that the engine gave the database.
    pub closed spec fn spec_dbi(&self) -> u32 {
        self.dbi
    }

    /// The mutex of the transaction that the handle belongs to.
    pub closed spec fn spec_txn(&self) -> &'txn Mutex<T> {
        self.txn
    }

    /// What opening returns for a status and the identifier that came with
    /// it: on success a handle with that identifier on the transaction, else
    /// the status as an error.
    pub open spec fn opened(
        r: Result<Self, Error>,
        txn: &'txn Mutex<T>,
        status: i32,
        dbi: u32,
    ) -> bool {
        match status_result(status) {
            Ok(_) => r matches Ok(db) && db.spec_dbi() == dbi && db.spec_txn() == txn,
            Err(e) => r matches Err(x) && x == e,
        }
    }

    /// Opens the database `name`, or the unnamed one, in the transaction.
    ///
    /// The native operation receives the name as a C string, or nothing, and
    /// `flags` as given; it returns the engine's status and the identifier it
    /// assigned. A name with a zero byte is refused with
    /// `Error::InvalidInput`.
    pub fn new<F>(txn: &'txn Mutex<T>, name: Option<&str>, flags: u32, open_op: F) -> (r: Result<
        Self,
        Error,
    >)
        where F: FnOnce(T, Option<&[u8]>, u32) -> (i32, u32)
        requires
            forall|raw: T, arg: Option<&[u8]>|
                name_argument(arg, name) ==> #[trigger] open_op.requires((raw, arg, flags)),
        ensures
            refused_name(name) ==> (r matches Err(e) && e == Error::InvalidInput),
            !refused_name(name) ==> exists|
                raw: T,
                arg: Option<&[u8]>,
                status: i32,
                dbi: u32,
            |
                name_argument(arg, name) && #[trigger] open_op.ensures(
                    (raw, arg, flags),
                    (status, dbi),
                ) && Self::opened(r, txn, status, dbi),
    {
        let owned: Option<Vec<u8>> = match name {
            Some(n) => Some(to_c_name(n)?),
            None => None,
        };
        let arg: Option<&[u8]> = match &owned {
            Some(bytes) => Some(bytes.as_slice()),
            None => None,
        };
        assert(name_argument(arg, name));
        let op = move |raw: T| -> (out: (i32, u32))
            requires open_op.requires((raw, arg, flags))
            ensures open_op.ensures((raw, arg, flags), out)
        {
            open_op(raw, arg, flags)
        };
        proof {
            assert forall|raw: T| op.requires((raw,)) by {
                assert(open_op.requires((raw, arg, flags)));
            }
        }
        let out = txn_execute(txn, op);
        let (status, dbi) = out;
        proof {
            let raw = choose|raw: T| op.ensures((raw,), out);
            assert(open_op.ensures((raw, arg, flags), (status, dbi)));
        }
        mdbx_result(status)?;
        Ok(Database { dbi, txn, _marker: PhantomData })
    }

    /// The handle of the engine's free-list database, identifier 0. No engine
    /// call is made.
    pub fn freelist_db(txn: &'txn Mutex<T>) -> (db: Self)
        ensures
            db.spec_dbi() == 0,
            db.spec_txn() == txn,
    {
        Database { dbi: 0, txn, _marker: PhantomData }
    }

    /// The identifier that the engine gave the database. It means nothing
    /// once the handle is gone.
    #[verifier::when_used_as_spec(spec_dbi)]
    pub fn dbi(&self) -> (dbi: u32)
        ensures
            dbi == self.spec_dbi(),
    {
        self.dbi
    }

    /// The mutex of the transaction that the handle belongs to.
    #[verifier::when_used_as_spec(spec_txn)]
    pub fn txn(&self) -> (txn: &'txn Mutex<T>)
        ensures
            txn == self.spec_txn(),
    {
        self.txn
    }

    /// Opens a cursor on the database, of the handle's kind and on its
    /// transaction.
    pub fn cursor<C: Copy, F>(&self, open_op: F) -> (r: Result<Cursor<'txn, K, T, C>, Error>)
        where F: FnOnce(T, u32) -> (i32, C)
        requires
            forall|raw: T| open_op.requires((raw, self.spec_dbi())),
        ensures
            exists|raw: T, status: i32, native: C|
                open_op.ensures((raw, self.spec_dbi()), (status, native)) && Cursor::opened(
                    r,
                    self.spec_txn(),
                    status,
                    native,
                ),
    {
        Cursor::new(self, open_op)
    }

    /// What a query of the flags returns for a status and the raw word that
    /// came with it: on success the flag set of the word's named bits.
    pub open spec fn flags_read(status: i32, bits: u32) -> Result<DatabaseFlags, Error> {
        match status_result(status) {
            Ok(_) => Ok(DatabaseFlags::truncated(bits)),
            Err(e) => Err(e),
        }
    }

    /// The engine stores the persistent bits of the flags a database was
    /// opened with, and reports them when asked. When it does, the flags read
    /// are the stored flags that were asked for: no bit is lost and none is
    /// added, whatever else the word asked for.
    pub proof fn lemma_flags_after_open(requested: DatabaseFlags, status: i32)
        requires
            requested.wf(),
            is_success(status),
        ensures
            Self::flags_read(status, requested.spec_bits() & DATABASE_FLAGS_STORED) matches Ok(
                read,
            ) && read.wf() && read.spec_bits() == requested.spec_bits() & DATABASE_FLAGS_STORED,
    {
        DatabaseFlags::lemma_stored_flags_read_back(requested);
        DatabaseFlags::lemma_truncated(requested.spec_bits() & DATABASE_FLAGS_STORED);
    }

    /// The flags that the engine has stored for the database.
    ///
    /// The native operation receives the handle's identifier and returns the
    /// engine's status with the raw flags.
    pub fn db_flags<F>(&self, flags_op: F) -> (r: Result<DatabaseFlags, Error>)
        where F: FnOnce(T, u32) -> (i32, u32)
        requires
            forall|raw: T| flags_op.requires((raw, self.spec_dbi())),
        ensures
            exists|raw: T, status: i32, bits: u32|
                flags_op.ensures((raw, self.spec_dbi()), (status, bits)) && r == Self::flags_read(
                    status,
                    bits,
                ),
    {
        let dbi: u32 = self.dbi;
        let op = move |raw: T| -> (out: (i32, u32))
            requires flags_op.requires((raw, dbi))
            ensures flags_op.ensures((raw, dbi), out)
        {
            flags_op(raw, dbi)
        };
        proof {
            assert forall|raw: T| op.requires((raw,)) by {
                assert(flags_op.requires((raw, self.spec_dbi())));
            }
        }
        let out = txn_execute(self.txn, op);
        let (status, bits) = out;
        proof {
            let raw = choose|raw: T| op.ensures((raw,), out);
            assert(flags_op.ensures((raw, self.spec_dbi()), (status, bits)));
        }
        mdbx_result(status)?;
        Ok(DatabaseFlags::from_bits_truncate(bits))
    }

    /// What a query of the statistics returns for a status and the snapshot
    /// that came with it.
    pub open spec fn stat_read(status: i32, stat: Stat) -> Result<Stat, Error> {
        match status_result(status) {
            Ok(_) => Ok(stat),
            Err(e) => Err(e),
        }
    }

    /// A snapshot of the database's statistics.
    ///
    /// The native operation receives the handle's identifier and returns the
    /// engine's status with the statistics it filled in.
    pub fn stat<F>(&self, stat_op: F) -> (r: Result<Stat, Error>)
        where F: FnOnce(T, u32) -> (i32, Stat)
        requires
            forall|raw: T| stat_op.requires((raw, self.spec_dbi())),
        ensures
            exists|raw: T, status: i32, stat: Stat|
                stat_op.ensures((raw, self.spec_dbi()), (status, stat)) && r == Self::stat_read(
                    status,
                    stat,
                ),
    {
        let dbi: u32 = self.dbi;
        let op = move |raw: T| -> (out: (i32, Stat))
            requires stat_op.requires((raw, dbi))
            ensures stat_op.ensures((raw, dbi), out)
        {
            stat_op(raw, dbi)
        };
        proof {
            assert forall|raw: T| op.requires((raw,)) by {
                assert(stat_op.requires((raw, self.spec_dbi())));
            }
        }
        let out = txn_execute(self.txn, op);
        let (status, stat) = out;
        proof {
            let raw = choose|raw: T| op.ensures((raw,), out);
            assert(stat_op.ensures((raw, self.spec_dbi()), (status, stat)));
        }
        mdbx_result(status)?;
        Ok(stat)
    }
}

impl<'txn, T: Copy> Database<'txn, RW, T> {
    /// The raw flags of a reservation: the caller's, with the reservation bit.
    pub open spec fn reserve_flags(flags: WriteFlags) -> u32 {
        flags.spec_bits() | MDBX_RESERVE
    }

    /// Whether a native operation, whenever it succeeds, returns a view of
    /// exactly the length it was asked for, as the engine does.
    pub open spec fn gives_room_asked<F>(put_op: F) -> bool
        where F: FnOnce(T, u32, &[u8], usize, u32) -> (i32, &'txn mut [u8])
    {
        forall|raw: T, dbi: u32, key: &[u8], len: usize, bits: u32, out: (i32, &'txn mut [u8])|
            #[trigger] put_op.ensures((raw, dbi, key, len, bits), out) && is_success(out.0)
                ==> out.1@.len() == len
    }

    /// The raw flags of a reservation hold the reservation bit and every bit
    /// of the caller's flags, and no bit that a write does not know.
    pub proof fn lemma_reserve_flags(flags: WriteFlags)
        requires
            flags.wf(),
        ensures
            Self::reserve_flags(flags) & MDBX_RESERVE == MDBX_RESERVE,
            Self::reserve_flags(flags) & flags.spec_bits() == flags.spec_bits(),
            Self::reserve_flags(flags) & !WRITE_FLAGS_ALL == 0,
    {
        let b: u32 = flags.spec_bits();
        assert((b | MDBX_RESERVE) & MDBX_RESERVE == MDBX_RESERVE) by (bit_vector);
        assert((b | MDBX_RESERVE) & b == b) by (bit_vector);
        assert((b | MDBX_RESERVE) & !WRITE_FLAGS_ALL == 0) by (bit_vector)
            requires
                b & !WRITE_FLAGS_ALL == 0,
        ;
    }

    /// Reserves room for a value of `len` bytes under `key` and returns it for
    /// the caller to fill.
    ///
    /// The native operation receives the handle's identifier, the key, `len`
    /// and the caller's flags with `MDBX_RESERVE` added; it returns the
    /// engine's status with a view of the room it allocated. On success the
    /// caller gets a view of the same bytes, through which every write
    /// reaches the engine's view; on failure the view is dropped. The view
    /// stays valid as long as the transaction does; bytes that the caller
    /// leaves unwritten are undefined.
    pub fn reserve<F>(&self, key: &[u8], len: usize, flags: WriteFlags, put_op: F) -> (r: Result<
        &'txn mut [u8],
        Error,
    >)
        where F: FnOnce(T, u32, &[u8], usize, u32) -> (i32, &'txn mut [u8])
        requires
            forall|raw: T|
                put_op.requires((raw, self.spec_dbi(), key, len, Self::reserve_flags(flags))),
        ensures
            exists|raw: T, status: i32, view: &'txn mut [u8]|
                put_op.ensures(
                    (raw, self.spec_dbi(), key, len, Self::reserve_flags(flags)),
                    (status, view),
                ) && match status_result(status) {
                    Ok(_) => (r matches Ok(buf) && buf@ == view@ && final(buf)@ == final(view)@),
                    Err(e) => (r matches Err(x) && x == e),
                },
            Self::gives_room_asked(put_op) ==> (r matches Ok(buf) ==> buf@.len() == len),
    {
        let dbi: u32 = self.dbi;
        let bits: u32 = flags.bits() | MDBX_RESERVE;
        let op = move |raw: T| -> (out: (i32, &'txn mut [u8]))
            requires put_op.requires((raw, dbi, key, len, bits))
            ensures put_op.ensures((raw, dbi, key, len, bits), out)
        {
            put_op(raw, dbi, key, len, bits)
        };
        proof {
            assert forall|raw: T| op.requires((raw,)) by {
                assert(put_op.requires(
                    (raw, self.spec_dbi(), key, len, Self::reserve_flags(flags)),
                ));
            }
        }
        let out = txn_execute(self.txn, op);
        let ghost raw = choose|raw: T| op.ensures((raw,), out);
        let (status, view) = out;
        proof {
            assert(put_op.ensures(
                (raw, self.spec_dbi(), key, len, Self::reserve_flags(flags)),
                (status, view),
            ));
        }
        mdbx_result(status)?;
        Ok(view)
    }

    /// Deletes entries of `key`.
    ///
    /// With `data`, only the entry whose value equals `data` is asked to be
    /// removed; without, every entry of the key. The native operation
    /// receives the handle's identifier, the key and `data` as given, and
    /// returns the engine's status. A status of `MDBX_NOTFOUND` comes back as
    /// `Error::NotFound`.
    pub fn del<F>(&self, key: &[u8], data: Option<&[u8]>, del_op: F) -> (r: Result<(), Error>)
        where F: FnOnce(T, u32, &[u8], Option<&[u8]>) -> i32
        requires
            forall|raw: T| del_op.requires((raw, self.spec_dbi(), key, data)),
        ensures
            exists|raw: T, status: i32|
                del_op.ensures((raw, self.spec_dbi(), key, data), status) && r == unit_result(
                    status,
                ) && (r == Err::<(), Error>(Error::NotFound) <==> status == MDBX_NOTFOUND),
    {
        let dbi: u32 = self.dbi;
        let op = move |raw: T| -> (status: i32)
            requires del_op.requires((raw, dbi, key, data))
            ensures del_op.ensures((raw, dbi, key, data), status)
        {
            del_op(raw, dbi, key, data)
        };
        proof {
            assert forall|raw: T| op.requires((raw,)) by {
                assert(del_op.requires((raw, self.spec_dbi(), key, data)));
            }
        }
        let status: i32 = txn_execute(self.txn, op);
        proof {
            let raw = choose|raw: T| op.ensures((raw,), status);
            assert(del_op.ensures((raw, self.spec_dbi(), key, data), status));
        }
        mdbx_result(status)?;
        Ok(())
    }

    /// Removes every entry of the database. The database stays open, and the
    /// handle stays usable.
    ///
    /// The native operation is the engine's drop; it receives the handle's
    /// identifier and `false`: the database itself is kept.
    pub fn clear_db<F>(&self, drop_op: F) -> (r: Result<(), Error>)
        where F: FnOnce(T, u32, bool) -> i32
        requires
            forall|raw: T| drop_op.requires((raw, self.spec_dbi(), false)),
        ensures
            exists|raw: T, status: i32|
                drop_op.ensures((raw, self.spec_dbi(), false), status) && r == unit_result(status),
    {
        let dbi: u32 = self.dbi;
        let op = move |raw: T| -> (status: i32)
            requires drop_op.requires((raw, dbi, false))
            ensures drop_op.ensures((raw, dbi, false), status)
        {
            drop_op(raw, dbi, false)
        };
        proof {
            assert forall|raw: T| op.requires((raw,)) by {
                assert(drop_op.requires((raw, self.spec_dbi(), false)));
            }
        }
        let status: i32 = txn_execute(self.txn, op);
        proof {
            let raw = choose|raw: T| op.ensures((raw,), status);
            assert(drop_op.ensures((raw, self.spec_dbi(), false), status));
        }
        mdbx_result(status)?;
        Ok(())
    }

    /// Removes the database itself from the environment. The handle is used
    /// up by the call.
    ///
    /// The native operation is the engine's drop; it receives the handle's
    /// identifier and `true`. Every other handle and cursor of the same
    /// identifier must be gone before the call: the engine does not check it,
    /// and nothing here can.
    pub fn drop_db<F>(self, drop_op: F) -> (r: Result<(), Error>)
        where F: FnOnce(T, u32, bool) -> i32
        requires
            forall|raw: T| drop_op.requires((raw, self.spec_dbi(), true)),
        ensures
            exists|raw: T, status: i32|
                drop_op.ensures((raw, self.spec_dbi(), true), status) && r == unit_result(status),
    {
        let dbi: u32 = self.dbi;
        let op = move |raw: T| -> (status: i32)
            requires drop_op.requires((raw, dbi, true))
            ensures drop_op.ensures((raw, dbi, true), status)
        {
            drop_op(raw, dbi, true)
        };
        proof {
            assert forall|raw: T| op.requires((raw,)) by {
                assert(drop_op.requires((raw, self.spec_dbi(), true)));
            }
        }
        let status: i32 = txn_execute(self.txn, op);
        proof {
            let raw = choose|raw: T| op.ensures((raw,), status);
            assert(drop_op.ensures((raw, self.spec_dbi(), true), status));
        }
        mdbx_result(status)?;
        Ok(())
    }
}

} // verus!
