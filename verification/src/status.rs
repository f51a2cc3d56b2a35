//! Status codes of the native engine, and the one error built from them.

use libc::c_int;
use vstd::prelude::*;

verus! {

/// The engine's status for success.
pub const SQLITE_OK: c_int = 0;

/// The engine's status for a database file that cannot be opened.
pub const SQLITE_CANTOPEN: c_int = 14;

/// The engine's status for an interface that was not used as it must be.
pub const SQLITE_MISUSE: c_int = 21;

/// An open attempt that failed, with the status that the attempt gave.
#[derive(Clone, Copy, Debug, PartialEq, Eq, Structural)]
pub struct SqliteError {
    /// The status of the failed attempt, never `SQLITE_OK` where this
    /// library built the error.
    pub code: c_int,
}

/// What an attempt gives: the value asked for, or the error.
pub type SqliteResult<T> = Result<T, SqliteError>;

} // verus!
