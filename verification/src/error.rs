//! Native status codes and the typed results they stand for.
//!
//! The engine reports the outcome of every call as one signed integer. Two
//! values mean success; every other value is an error, which this module
//! sorts into one of five classes.

use vstd::prelude::*;

verus! {

/// The call succeeded.
pub const MDBX_SUCCESS: i32 = 0;

/// The call succeeded and reports a positive answer.
pub const MDBX_RESULT_TRUE: i32 = -1;

/// No matching key/data pair.
pub const MDBX_NOTFOUND: i32 = -30798;

/// The environment's map size is reached.
pub const MDBX_MAP_FULL: i32 = -30792;

/// The environment's limit of open databases is reached.
pub const MDBX_DBS_FULL: i32 = -30791;

/// The environment's limit of readers is reached.
pub const MDBX_READERS_FULL: i32 = -30790;

/// The transaction has too many dirty pages.
pub const MDBX_TXN_FULL: i32 = -30788;

/// Invalid size or alignment of a key or value, or an invalid database name.
pub const MDBX_BAD_VALSIZE: i32 = -30781;

/// Another write transaction is running, or the environment is in use.
pub const MDBX_BUSY: i32 = -30778;

/// Operation not permitted (the POSIX `EPERM`).
pub const MDBX_EPERM: i32 = 1;

/// Out of memory (the POSIX `ENOMEM`).
pub const MDBX_ENOMEM: i32 = 12;

/// Access denied, as for a write under a read-only transaction (the POSIX `EACCES`).
pub const MDBX_EACCESS: i32 = 13;

/// Invalid argument (the POSIX `EINVAL`).
pub const MDBX_EINVAL: i32 = 22;

/// What a failed operation reports.
#[derive(Clone, Copy, Debug, PartialEq, Eq, Structural)]
pub enum Error {
    /// No key/data pair matched.
    NotFound,
    /// A name, key or value that the engine cannot take.
    InvalidInput,
    /// A limit of the engine is reached, or it is busy.
    ResourceExhausted,
    /// The transaction may not do what was asked.
    PermissionDenied,
    /// Any other native status, kept as the engine gave it.
    Engine(i32),
}

/// Whether a native status means success.
pub open spec fn is_success(code: i32) -> bool {
    code == MDBX_SUCCESS || code == MDBX_RESULT_TRUE
}

/// The class of error that a native status stands for. Meant for codes that
/// are not a success; a success code falls under `Engine` like any other
/// value without a class of its own.
pub open spec fn error_class(code: i32) -> Error {
    if code == MDBX_NOTFOUND {
        Error::NotFound
    } else if code == MDBX_BAD_VALSIZE || code == MDBX_EINVAL {
        Error::InvalidInput
    } else if code == MDBX_MAP_FULL || code == MDBX_DBS_FULL || code == MDBX_READERS_FULL
        || code == MDBX_TXN_FULL || code == MDBX_BUSY || code == MDBX_ENOMEM {
        Error::ResourceExhausted
    } else if code == MDBX_EACCESS || code == MDBX_EPERM {
        Error::PermissionDenied
    } else {
        Error::Engine(code)
    }
}

/// The typed result of a native status: `Ok(false)` for plain success,
/// `Ok(true)` for success with a positive answer, else the error's class.
pub open spec fn status_result(code: i32) -> Result<bool, Error> {
    if code == MDBX_SUCCESS {
        Ok(false)
    } else if code == MDBX_RESULT_TRUE {
        Ok(true)
    } else {
        Err(error_class(code))
    }
}

/// The result of an operation that returns nothing on success.
pub open spec fn unit_result(code: i32) -> Result<(), Error> {
    if is_success(code) {
        Ok(())
    } else {
        Err(error_class(code))
    }
}

impl Error {
    /// Sorts a native error status into its class.
    pub fn from_err_code(code: i32) -> (e: Error)
        ensures
            e == error_class(code),
    {
        match code {
            MDBX_NOTFOUND => Error::NotFound,
            MDBX_BAD_VALSIZE | MDBX_EINVAL => Error::InvalidInput,
            MDBX_MAP_FULL | MDBX_DBS_FULL | MDBX_READERS_FULL | MDBX_TXN_FULL | MDBX_BUSY
            | MDBX_ENOMEM => Error::ResourceExhausted,
            MDBX_EACCESS | MDBX_EPERM => Error::PermissionDenied,
            other => Error::Engine(other),
        }
    }
}

/// Turns a native status into a typed result, without retry or recovery.
pub fn mdbx_result(code: i32) -> (r: Result<bool, Error>)
    ensures
        r == status_result(code),
        r is Ok <==> is_success(code),
        r == Ok::<bool, Error>(true) <==> code == MDBX_RESULT_TRUE,
{
    match code {
        MDBX_SUCCESS => Ok(false),
        MDBX_RESULT_TRUE => Ok(true),
        other => Err(Error::from_err_code(other)),
    }
}

} // verus!
