//! Transaction kinds, and the one place where the native transaction is reached.
//!
//! The engine demands that all calls on one transaction are strictly
//! serialized, reads included. The native transaction therefore lives behind a
//! mutex, and every call goes through [`txn_execute`].
//!
//! The mutex is not re-entrant. A native operation must not itself start an
//! operation on the same transaction: that call would wait for its own caller
//! and never return.

use crate::sealed::Sealed;
use vstd::prelude::*;

verus! {

/// The capability of a transaction, fixed in the type of every handle made
/// from it. It carries no state: it only decides which operations exist.
pub trait TransactionKind: Sealed + core::fmt::Debug {
}

/// Marks a read-only transaction.
#[derive(Debug)]
pub struct RO;

/// Marks a read-write transaction.
#[derive(Debug)]
pub struct RW;

impl Sealed for RO {
}

impl Sealed for RW {
}

impl TransactionKind for RO {
}

impl TransactionKind for RW {
}

/// `parking_lot::RawMutex`, the lock inside a `parking_lot::Mutex`. Nothing is
/// claimed of it.
#[verifier::external_type_specification]
#[verifier::external_body]
pub struct ExRawMutex(parking_lot::RawMutex);

/// `lock_api::Mutex`, of which `parking_lot::Mutex<T>` is the instance with
/// `parking_lot::RawMutex`. The value it guards is hidden: it can change
/// between two acquisitions.
#[verifier::external_type_specification]
#[verifier::external_body]
#[verifier::reject_recursive_types(R)]
#[verifier::reject_recursive_types(T)]
pub struct ExMutex<R, T: ?Sized>(parking_lot::lock_api::Mutex<R, T>);

/// Holds a `parking_lot::MutexGuard`: exclusive access to the guarded value
/// until it is dropped. The guard's own type is bound by a trait of the lock
/// crate, so it is kept behind this struct.
#[verifier::external_body]
#[verifier::reject_recursive_types(T)]
struct Exclusive<'a, T> {
    guard: parking_lot::MutexGuard<'a, T>,
}

/// Calls `Mutex::lock`: blocks until the mutex is free and returns the guard.
/// Nothing is claimed of the result. A thread that already holds this mutex
/// never returns from the call; `txn_execute` holds the guard only while the
/// native operation runs.
#[verifier::external_body]
fn acquire<'a, T>(txn: &'a parking_lot::Mutex<T>) -> (held: Exclusive<'a, T>) {
    Exclusive { guard: txn.lock() }
}

/// Reads the guarded value through the guard's `Deref`. Which value that is
/// depends on what was stored last, so nothing is claimed of it.
#[verifier::external_body]
fn current<'a, T: Copy>(held: &Exclusive<'a, T>) -> (raw: T) {
    *held.guard
}

/// Runs one native operation on the transaction, under exclusive access.
///
/// Acquires the mutex, hands the value it guards to `f`, releases the mutex
/// and returns what `f` returned, unchanged. The status is not interpreted
/// here. The call blocks, without timeout, while another thread holds the
/// mutex.
///
/// The contract says that the result is what `f` returned for some value of
/// the transaction. Which value `f` received is not stated: it is whatever
/// the mutex guards when the call gets its turn. Nothing here ever writes
/// the guarded value.
pub fn txn_execute<T: Copy, R, F: FnOnce(T) -> R>(txn: &parking_lot::Mutex<T>, f: F) -> (r: R)
    requires
        forall|raw: T| f.requires((raw,)),
    ensures
        exists|raw: T| f.ensures((raw,), r),
{
    let held = acquire(txn);
    let raw = current(&held);
    f(raw)
}

} // verus!
