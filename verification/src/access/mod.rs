//! Authorities, and the privileged function that makes one and spends it.
//!
//! Whoever can call `open` here can open any database by its name. Code that
//! is handed a `ByFilename` can open that one database, once.

pub mod flags;

use crate::access::flags::{options_of, OpenFlags, OpenOption, OPEN_DEFAULT};
use crate::connection::{Access, DatabaseConnection, NativeReply};
use crate::status::{SqliteResult, SQLITE_CANTOPEN, SQLITE_OK};
use crate::text::{c_text, nameable, to_c_text};
use libc::c_int;
use vstd::prelude::*;

verus! {

/// Whether the engine accepts the call that opens `name` with `bits`.
pub open spec fn engine_takes<H, E: FnOnce(Vec<u8>, c_int) -> NativeReply<H>>(
    engine: E,
    name: Seq<char>,
    bits: c_int,
) -> bool {
    forall|text: Vec<u8>| text@ == c_text(name) ==> call_requires(engine, (text, bits))
}

/// Whether `reply` can be the engine's answer to the call that opens `name`
/// with `bits`.
pub open spec fn engine_gave<H, E: FnOnce(Vec<u8>, c_int) -> NativeReply<H>>(
    engine: E,
    name: Seq<char>,
    bits: c_int,
    reply: NativeReply<H>,
) -> bool {
    exists|text: Vec<u8>| text@ == c_text(name) && call_ensures(engine, (text, bits), reply)
}

/// The bit pattern of the flags, or of the default flags where none are given.
pub open spec fn bits_or_default(flags: Option<OpenFlags>) -> c_int {
    match flags {
        Some(flags) => flags.bits_spec(),
        None => OPEN_DEFAULT,
    }
}

/// Access to a database by filename.
pub struct ByFilename<'a> {
    /// Filename or SQLite style URI.
    pub filename: &'a str,
    /// Flags for additional control over the new database connection.
    pub flags: OpenFlags,
}

/// Whether the attempt to open `name` with `bits`, with this engine and a
/// slot that held `before`, can end with `status` and leave `after` in the
/// slot: for a name that is put to the engine, one of its answers; else the
/// refusal, with the slot as it was.
pub open spec fn attempted<H, E: FnOnce(Vec<u8>, c_int) -> NativeReply<H>>(
    engine: E,
    name: Seq<char>,
    bits: c_int,
    before: Option<H>,
    status: c_int,
    after: Option<H>,
) -> bool {
    if nameable(name) {
        exists|reply: NativeReply<H>|
            {
                &&& #[trigger] engine_gave(engine, name, bits, reply)
                &&& status == reply.status
                &&& after == Some(reply.handle)
            }
    } else {
        status == SQLITE_CANTOPEN && after == before
    }
}

impl<'a, H, E: FnOnce(Vec<u8>, c_int) -> NativeReply<H>> Access<H, E> for ByFilename<'a> {
    open spec fn may_ask(self, engine: E) -> bool {
        nameable(self.filename@) ==> engine_takes(engine, self.filename@, self.flags.bits_spec())
    }

    open spec fn attempt(
        self,
        engine: E,
        before: Option<H>,
        status: c_int,
        after: Option<H>,
    ) -> bool {
        attempted(engine, self.filename@, self.flags.bits_spec(), before, status, after)
    }

    /// Asks the engine once, with the filename's text and the flags' bits,
    /// puts what it left into the slot and gives its status unchanged. The
    /// filename is not judged here: the empty one is put to the engine like
    /// any other. Only a filename that holds a NUL character cannot be put to
    /// it whole: the status is then `SQLITE_CANTOPEN` and the slot stays as
    /// it was.
    fn open(self, slot: &mut Option<H>, engine: E) -> (status: c_int) {
        match to_c_text(self.filename) {
            Some(text) => {
                let bits = self.flags.bits();
                let reply = engine(text, bits);
                proof {
                    assert(engine_gave(engine, self.filename@, bits, reply));
                }
                *slot = Some(reply.handle);
                reply.status
            },
            None => SQLITE_CANTOPEN,
        }
    }
}

/// What this authority asks of an engine, for a caller that holds an engine
/// of its own: the engine has to take the one call for the filename.
pub proof fn lemma_may_ask<'a, H, E: FnOnce(Vec<u8>, c_int) -> NativeReply<H>>(
    access: ByFilename<'a>,
    engine: E,
)
    ensures
        <ByFilename<'a> as Access<H, E>>::may_ask(access, engine) == (nameable(access.filename@)
            ==> engine_takes(engine, access.filename@, access.flags.bits_spec())),
{
}

/// What this authority's attempt comes to, for a caller that holds an engine
/// of its own: what `attempted` says of the filename and the flags' bits.
pub proof fn lemma_attempt<'a, H, E: FnOnce(Vec<u8>, c_int) -> NativeReply<H>>(
    access: ByFilename<'a>,
    engine: E,
    before: Option<H>,
    status: c_int,
    after: Option<H>,
)
    ensures
        <ByFilename<'a> as Access<H, E>>::attempt(access, engine, before, status, after)
            == attempted(
            engine,
            access.filename@,
            access.flags.bits_spec(),
            before,
            status,
            after,
        ),
{
}

/// Whether `res` can be what opening `name` with `bits` gives with this
/// engine: for a name that is put to the engine, the conclusion of one of
/// its answers; else the refusal.
pub open spec fn opened<H, E: FnOnce(Vec<u8>, c_int) -> NativeReply<H>>(
    engine: E,
    name: Seq<char>,
    bits: c_int,
    res: SqliteResult<DatabaseConnection<H>>,
) -> bool {
    if nameable(name) {
        exists|reply: NativeReply<H>|
            {
                &&& #[trigger] engine_gave(engine, name, bits, reply)
                &&& DatabaseConnection::concludes(res, reply.status, Some(reply.handle))
            }
    } else {
        res matches Err(error) && error.code == SQLITE_CANTOPEN
    }
}

/// Open a database by filename, with the default flags where none are given.
///
/// The engine is asked once, and its answer is the result: a connection that
/// holds the engine's handle where the status is `SQLITE_OK`, else the error
/// with that status. Whether a filename is acceptable is the engine's to
/// say, of the empty one too. Only a filename that holds a NUL character
/// cannot be put to the engine whole: it is refused with `SQLITE_CANTOPEN`,
/// and the engine is not asked.
pub fn open<H, E: FnOnce(Vec<u8>, c_int) -> NativeReply<H>>(
    filename: &str,
    flags: Option<OpenFlags>,
    engine: E,
) -> (res: SqliteResult<DatabaseConnection<H>>)
    requires
        nameable(filename@) ==> engine_takes(engine, filename@, bits_or_default(flags)),
    ensures
        opened(engine, filename@, bits_or_default(flags), res),
{
    let flags = match flags {
        Some(flags) => flags,
        None => OpenFlags::default(),
    };
    DatabaseConnection::new(ByFilename { filename, flags }, engine)
}

/// Without flags the engine is asked for read-write access and for the
/// database to be created where it is missing, and for nothing else.
pub proof fn lemma_default_is_read_write_create()
    ensures
        options_of(bits_or_default(None)) == set![OpenOption::ReadWrite, OpenOption::Create],
        bits_or_default(None) == OpenOption::ReadWrite.bit_spec() | OpenOption::Create.bit_spec(),
{
    let bits: c_int = 0x0000_0006;
    assert(bits & 0x0000_0001 == 0 && bits & 0x0000_0002 != 0 && bits & 0x0000_0004 != 0 && bits
        & 0x0000_0040 == 0 && bits & 0x0000_0080 == 0 && bits & 0x0000_8000 == 0 && bits
        & 0x0001_0000 == 0 && bits & 0x0002_0000 == 0 && bits & 0x0004_0000 == 0) by (bit_vector)
        requires
            bits == 0x0000_0006i32,
    ;
    assert(0x0000_0006i32 == 0x0000_0002i32 | 0x0000_0004i32) by (bit_vector);
    assert forall|option: OpenOption|
        options_of(bits).contains(option) == set![
            OpenOption::ReadWrite,
            OpenOption::Create,
        ].contains(option) by {
        assert(options_of(bits).contains(option) == (bits & option.bit_spec() != 0));
    }
    assert(options_of(bits) =~= set![OpenOption::ReadWrite, OpenOption::Create]);
}

/// A name that the engine accepts is opened: where every answer that the
/// engine can give to the call for a name is `SQLITE_OK`, opening the name
/// gives a connection, and the connection holds a handle that the engine gave
/// to this call, for its holder to release.
pub proof fn lemma_accepted_name_is_opened<H, E: FnOnce(Vec<u8>, c_int) -> NativeReply<H>>(
    engine: E,
    name: Seq<char>,
    bits: c_int,
    res: SqliteResult<DatabaseConnection<H>>,
)
    requires
        nameable(name),
        forall|reply: NativeReply<H>| #[trigger]
            engine_gave(engine, name, bits, reply) ==> reply.status == SQLITE_OK,
        opened(engine, name, bits, res),
    ensures
        res is Ok,
        exists|reply: NativeReply<H>| #[trigger]
            engine_gave(engine, name, bits, reply) && res.unwrap()@ == reply.handle,
{
    let reply = choose|reply: NativeReply<H>|
        {
            &&& #[trigger] engine_gave(engine, name, bits, reply)
            &&& DatabaseConnection::concludes(res, reply.status, Some(reply.handle))
        };
    assert(engine_gave(engine, name, bits, reply) && res.unwrap()@ == reply.handle);
}

/// A name that the engine refuses is not opened, and the error is the
/// engine's: where no answer that the engine can give to the call for a name
/// is `SQLITE_OK`, opening the name gives the error with a status that the
/// engine gave to this call.
pub proof fn lemma_refused_name_is_error<H, E: FnOnce(Vec<u8>, c_int) -> NativeReply<H>>(
    engine: E,
    name: Seq<char>,
    bits: c_int,
    res: SqliteResult<DatabaseConnection<H>>,
)
    requires
        nameable(name),
        forall|reply: NativeReply<H>| #[trigger]
            engine_gave(engine, name, bits, reply) ==> reply.status != SQLITE_OK,
        opened(engine, name, bits, res),
    ensures
        res is Err,
        res->Err_0.code != SQLITE_OK,
        exists|reply: NativeReply<H>| #[trigger]
            engine_gave(engine, name, bits, reply) && res->Err_0.code == reply.status,
{
    let reply = choose|reply: NativeReply<H>|
        {
            &&& #[trigger] engine_gave(engine, name, bits, reply)
            &&& DatabaseConnection::concludes(res, reply.status, Some(reply.handle))
        };
    assert(engine_gave(engine, name, bits, reply) && res->Err_0.code == reply.status);
}

/// The engine's failure is handed on as it is: where the engine answers the
/// call for a name with one status only, and that is not `SQLITE_OK`, the
/// result is the error with exactly that status.
pub proof fn lemma_status_is_the_error<H, E: FnOnce(Vec<u8>, c_int) -> NativeReply<H>>(
    engine: E,
    name: Seq<char>,
    bits: c_int,
    status: c_int,
    res: SqliteResult<DatabaseConnection<H>>,
)
    requires
        nameable(name),
        status != SQLITE_OK,
        forall|reply: NativeReply<H>| #[trigger]
            engine_gave(engine, name, bits, reply) ==> reply.status == status,
        opened(engine, name, bits, res),
    ensures
        res is Err,
        res->Err_0.code == status,
{
}

/// An attempt ends with a connection or with an error, and the error never
/// carries `SQLITE_OK`: no result stands for half a success.
pub proof fn lemma_error_is_a_failure<H, E: FnOnce(Vec<u8>, c_int) -> NativeReply<H>>(
    engine: E,
    name: Seq<char>,
    bits: c_int,
    res: SqliteResult<DatabaseConnection<H>>,
)
    requires
        opened(engine, name, bits, res),
    ensures
        res is Err ==> res->Err_0.code != SQLITE_OK,
        res is Ok ==> nameable(name),
{
}

/// Two calls give two connections, each with the handle of its own call:
/// where two engines never give the same handle, two connections opened
/// with them, under one name and the same flags, hold different handles.
pub proof fn lemma_connections_are_independent<
    H,
    E1: FnOnce(Vec<u8>, c_int) -> NativeReply<H>,
    E2: FnOnce(Vec<u8>, c_int) -> NativeReply<H>,
>(
    first: E1,
    second: E2,
    name: Seq<char>,
    bits: c_int,
    one: SqliteResult<DatabaseConnection<H>>,
    other: SqliteResult<DatabaseConnection<H>>,
)
    requires
        forall|a: NativeReply<H>, b: NativeReply<H>|
            #[trigger] engine_gave(first, name, bits, a) && #[trigger] engine_gave(
                second,
                name,
                bits,
                b,
            ) ==> a.handle != b.handle,
        opened(first, name, bits, one),
        opened(second, name, bits, other),
        one is Ok,
        other is Ok,
    ensures
        one.unwrap()@ != other.unwrap()@,
{
}

} // verus!
