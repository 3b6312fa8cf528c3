//! Cursors: iteration state on one database.
//!
//! Only the making of a cursor is defined here. A cursor shares the kind and
//! the transaction of the handle it was opened on, and holds the engine's
//! cursor as a plain value of type `C`.

use crate::database::Database;
use crate::error::{mdbx_result, status_result, Error};
use crate::transaction::{txn_execute, TransactionKind};
use core::marker::PhantomData;
use parking_lot::Mutex;
use vstd::prelude::*;

verus! {

/// A cursor on a database of a transaction of kind `K`.
#[derive(Debug)]
#[verifier::reject_recursive_types(K)]
#[verifier::reject_recursive_types(T)]
pub struct Cursor<'txn, K: TransactionKind, T, C> {
    txn: &'txn Mutex<T>,
    cursor: C,
    _marker: PhantomData<&'txn K>,
}

impl<'txn, K: TransactionKind, T: Copy, C: Copy> Cursor<'txn, K, T, C> {
    /// The mutex of the transaction that the cursor belongs to.
    pub closed spec fn spec_txn(&self) -> &'txn Mutex<T> {
        self.txn
    }

    /// The engine's cursor.
    pub closed spec fn spec_cursor(&self) -> C {
        self.cursor
    }

    /// What opening a cursor returns for a status and the native cursor that
    /// came with it.
    pub open spec fn opened(
        r: Result<Self, Error>,
        txn: &'txn Mutex<T>,
        status: i32,
        native: C,
    ) -> bool {
        match status_result(status) {
            Ok(_) => r matches Ok(c) && c.spec_cursor() == native && c.spec_txn() == txn,
            Err(e) => r matches Err(x) && x == e,
        }
    }

    /// Opens a cursor on `db`.
    ///
    /// The native operation receives the database's identifier and returns
    /// the engine's status with the cursor it allocated. The cursor lives on
    /// the database's transaction; it fails only if the engine does.
    pub fn new<F>(db: &Database<'txn, K, T>, open_op: F) -> (r: Result<Self, Error>)
        where F: FnOnce(T, u32) -> (i32, C)
        requires
            forall|raw: T| open_op.requires((raw, db.spec_dbi())),
        ensures
            exists|raw: T, status: i32, native: C|
                open_op.ensures((raw, db.spec_dbi()), (status, native)) && Self::opened(
                    r,
                    db.spec_txn(),
                    status,
                    native,
                ),
    {
        let dbi: u32 = db.dbi();
        let txn = db.txn();
        let op = move |raw: T| -> (out: (i32, C))
            requires open_op.requires((raw, dbi))
            ensures open_op.ensures((raw, dbi), out)
        {
            open_op(raw, dbi)
        };
        proof {
            assert forall|raw: T| op.requires((raw,)) by {
                assert(open_op.requires((raw, db.spec_dbi())));
            }
        }
        let out = txn_execute(txn, op);
        let (status, native) = out;
        proof {
            let raw = choose|raw: T| op.ensures((raw,), out);
            assert(open_op.ensures((raw, db.spec_dbi()), (status, native)));
        }
        mdbx_result(status)?;
        Ok(Cursor { txn, cursor: native, _marker: PhantomData })
    }

    /// The engine's cursor. It means nothing once this cursor is gone.
    #[verifier::when_used_as_spec(spec_cursor)]
    pub fn cursor(&self) -> (native: C)
        ensures
            native == self.spec_cursor(),
    {
        self.cursor
    }

    /// The mutex of the transaction that the cursor belongs to.
    #[verifier::when_used_as_spec(spec_txn)]
    pub fn txn(&self) -> (txn: &'txn Mutex<T>)
        ensures
            txn == self.spec_txn(),
    {
        self.txn
    }
}

} // verus!
