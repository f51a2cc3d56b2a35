//! A connection, and what must be shown to get one.

use crate::status::{SqliteError, SqliteResult, SQLITE_MISUSE, SQLITE_OK};
use libc::c_int;
use vstd::prelude::*;

verus! {

/// What the engine's open primitive answered: its status, and what it left
/// in the handle slot. The handle is the engine's to judge; this library
/// goes by the status alone.
#[derive(Debug)]
pub struct NativeReply<H> {
    pub status: c_int,
    pub handle: H,
}

/// An authority to open a connection: one way of obtaining one.
///
/// The engine is its open primitive, called with the text of a filename,
/// closed by a zero byte, and the bit pattern of the flags; the primitive's
/// reserved argument is never provided. `H` is the engine's handle.
pub trait Access<H, E: FnOnce(Vec<u8>, c_int) -> NativeReply<H>>: Sized {
    /// Whether the engine accepts every call that this authority may make.
    /// As it stands here, nothing is asked of the engine.
    open spec fn may_ask(self, engine: E) -> bool {
        true
    }

    /// Whether the attempt of this authority, with this engine and a slot
    /// that held `before`, can end with `status` and leave `after` in the
    /// slot. As it stands here, any end is possible.
    open spec fn attempt(
        self,
        engine: E,
        before: Option<H>,
        status: c_int,
        after: Option<H>,
    ) -> bool {
        true
    }

    /// Spends the authority on its one attempt: fills the slot and gives
    /// the engine's status. With `SQLITE_OK` the slot holds the handle.
    fn open(self, slot: &mut Option<H>, engine: E) -> (status: c_int)
        requires
            self.may_ask(engine),
        ensures
            self.attempt(engine, *old(slot), status, *final(slot)),
            status == SQLITE_OK ==> *final(slot) is Some,
    ;
}

/// What an attempt that ended with `status` and left `slot` comes to: the
/// handle, or the error.
pub open spec fn concluded<H>(status: c_int, slot: Option<H>) -> Result<H, SqliteError> {
    if status != SQLITE_OK {
        Err(SqliteError { code: status })
    } else if let Some(handle) = slot {
        Ok(handle)
    } else {
        Err(SqliteError { code: SQLITE_MISUSE })
    }
}

/// A connection to a database. It holds the handle of an attempt that the
/// engine answered with `SQLITE_OK`.
#[derive(Debug)]
pub struct DatabaseConnection<H> {
    handle: H,
}

impl<H> View for DatabaseConnection<H> {
    type V = H;

    /// The handle that the connection holds.
    closed spec fn view(&self) -> H {
        self.handle
    }
}

impl<H> DatabaseConnection<H> {
    /// Whether `res` is what `concluded` says of the attempt.
    pub open spec fn concludes(res: SqliteResult<Self>, status: c_int, slot: Option<H>) -> bool {
        match res {
            Ok(connection) => concluded(status, slot) == Ok::<H, SqliteError>(connection@),
            Err(error) => concluded(status, slot) == Err::<H, SqliteError>(error),
        }
    }

    /// The connection for an attempt that ended with `status` and left
    /// `slot`, or the error. A status other than `SQLITE_OK` is the error's
    /// code, and what the slot holds is then dropped. `SQLITE_OK` with an
    /// empty slot is no connection either: the error is `SQLITE_MISUSE`.
    pub fn conclude(status: c_int, slot: Option<H>) -> (res: SqliteResult<Self>)
        ensures
            Self::concludes(res, status, slot),
            res is Ok <==> status == SQLITE_OK && slot is Some,
            res is Err ==> res->Err_0.code != SQLITE_OK,
    {
        if status != SQLITE_OK {
            Err(SqliteError { code: status })
        } else {
            match slot {
                Some(handle) => Ok(DatabaseConnection { handle }),
                None => Err(SqliteError { code: SQLITE_MISUSE }),
            }
        }
    }

    /// Opens a connection by spending the authority: one attempt, with an
    /// empty slot, concluded by its status.
    pub fn new<A: Access<H, E>, E: FnOnce(Vec<u8>, c_int) -> NativeReply<H>>(
        access: A,
        engine: E,
    ) -> (res: SqliteResult<Self>)
        requires
            access.may_ask(engine),
        ensures
            exists|status: c_int, slot: Option<H>|
                {
                    &&& #[trigger] access.attempt(engine, None, status, slot)
                    &&& status == SQLITE_OK ==> slot is Some
                    &&& Self::concludes(res, status, slot)
                },
    {
        let mut slot: Option<H> = None;
        let status = access.open(&mut slot, engine);
        Self::conclude(status, slot)
    }

    /// The handle.
    pub fn handle(&self) -> (handle: &H)
        ensures
            *handle == self@,
    {
        &self.handle
    }

    /// Gives the handle up, to whoever releases it.
    pub fn into_handle(self) -> (handle: H)
        ensures
            handle == self@,
    {
        self.handle
    }
}

} // verus!
