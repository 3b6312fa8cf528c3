//! A safe access layer over the database handles of an embedded,
//! transactional key-value engine.
//!
//! A [`Database`] names one database inside one transaction. Its type says
//! whether the transaction may write, so the mutating operations cannot even
//! be named on a handle of a read-only transaction. Every engine call is made
//! under the transaction's mutex, through [`txn_execute`], and its native
//! status is turned into a typed result at once.
//!
//! This crate holds no call into the engine itself. The caller hands each
//! operation the native call as a closure; what this crate fixes, and proves,
//! is what that closure is given and what becomes of its answer.
//!
//! ```
//! use mdbx_db::{Database, Error, RW};
//! use parking_lot::Mutex;
//!
//! // The native transaction stands behind a mutex; here it is a number.
//! let txn = Mutex::new(7u64);
//! // A stand-in for the engine: every name opens database 2, and no key is found.
//! let db = Database::<RW, u64>::new(&txn, Some("accounts"), 0, |_, _, _| (0, 2)).unwrap();
//! assert_eq!(db.dbi(), 2);
//! assert_eq!(db.del(b"alice", None, |_, _, _, _| -30798), Err(Error::NotFound));
//! ```

pub mod cursor;
pub mod database;
pub mod error;
pub mod flags;
mod sealed;
pub mod stat;
pub mod transaction;

pub use crate::cursor::Cursor;
pub use crate::database::Database;
pub use crate::error::{mdbx_result, Error};
pub use crate::flags::{DatabaseFlags, WriteFlags};
pub use crate::stat::Stat;
pub use crate::transaction::{txn_execute, TransactionKind, RO, RW};
