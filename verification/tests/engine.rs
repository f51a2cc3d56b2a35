use rusqlite::Connection;
use sqlite_access::access::flags::{OpenFlags, OpenOption};
use sqlite_access::access::{open, ByFilename};
use sqlite_access::connection::{DatabaseConnection, NativeReply};
use sqlite_access::status::{SqliteError, SqliteResult, SQLITE_CANTOPEN};
use std::cell::Cell;
use std::path::Path;
use std::time::{SystemTime, UNIX_EPOCH};

/// The engine: SQLite, asked with the text and the bits as they come.
fn sqlite(text: Vec<u8>, bits: i32) -> NativeReply<Option<Connection>> {
    assert_eq!(text.last(), Some(&0));
    let name = String::from_utf8(text[..text.len() - 1].to_vec()).unwrap();
    let flags = rusqlite::OpenFlags::from_bits(bits).unwrap();
    match Connection::open_with_flags(name, flags) {
        Ok(connection) => NativeReply { status: 0, handle: Some(connection) },
        Err(error) => {
            let status = error.sqlite_error().map(|e| e.extended_code).unwrap();
            NativeReply { status, handle: None }
        }
    }
}

fn release(connection: DatabaseConnection<Option<Connection>>) {
    connection.into_handle().unwrap().close().map_err(|(_, error)| error).unwrap();
}

fn usable(connection: &DatabaseConnection<Option<Connection>>) -> bool {
    let handle = connection.handle().as_ref().unwrap();
    handle.query_row("SELECT 40 + 2", (), |row| row.get::<_, i64>(0)).ok() == Some(42)
}

/// A path under /tmp that no earlier run has used.
fn fresh_path(tag: &str) -> String {
    let nanos = SystemTime::now().duration_since(UNIX_EPOCH).unwrap().as_nanos();
    let path = format!("/tmp/sqlite_access_{}_{}", tag, nanos);
    assert!(!Path::new(&path).exists());
    path
}

fn read_only() -> OpenFlags {
    OpenFlags::empty().with(OpenOption::ReadOnly)
}

#[test]
fn open_file_db() {
    DatabaseConnection::new(
        ByFilename {
            filename: "/tmp/db1", flags: Default::default()
        }, sqlite)
        .unwrap();
}

#[test]
fn open_then_release_succeeds() {
    for name in ["/tmp/sqlite_access_release", "/tmp/sqlite access \u{e9}\u{20ac}", ":memory:"] {
        let connection = open(name, None, sqlite).unwrap();
        release(connection);
    }
}

#[test]
fn default_flags_create_a_missing_database() {
    let path = fresh_path("create");
    let connection = open(&path, None, sqlite).unwrap();
    assert!(usable(&connection));
    assert!(Path::new(&path).exists());
    let handle = connection.handle().as_ref().unwrap();
    handle.execute_batch("CREATE TABLE t (x INTEGER); INSERT INTO t VALUES (1);").unwrap();
    release(connection);
}

#[test]
fn read_only_does_not_create_a_missing_database() {
    let path = fresh_path("missing");
    let res: SqliteResult<DatabaseConnection<Option<Connection>>> =
        open(&path, Some(read_only()), sqlite);
    let error = res.unwrap_err();
    assert_eq!(error.code & 0xff, SQLITE_CANTOPEN);
    assert!(!Path::new(&path).exists());
}

#[test]
fn read_write_without_create_does_not_create_either() {
    let path = fresh_path("nocreate");
    let flags = OpenFlags::empty().with(OpenOption::ReadWrite);
    let error = open(&path, Some(flags), sqlite).unwrap_err();
    assert_eq!(error.code & 0xff, SQLITE_CANTOPEN);
    assert!(!Path::new(&path).exists());
}

#[test]
fn read_only_connection_cannot_write() {
    let path = fresh_path("readonly");
    let writer = open(&path, None, sqlite).unwrap();
    let reader = open(&path, Some(read_only()), sqlite).unwrap();
    writer.handle().as_ref().unwrap().execute_batch("CREATE TABLE t (x INTEGER);").unwrap();
    assert!(reader.handle().as_ref().unwrap().execute_batch("CREATE TABLE u (x INTEGER);").is_err());
    release(reader);
    release(writer);
}

#[test]
fn two_connections_are_independent() {
    let path = fresh_path("pair");
    let one = open(&path, None, sqlite).unwrap();
    let other = open(&path, None, sqlite).unwrap();
    assert!(usable(&one));
    assert!(usable(&other));
    release(one);
    assert!(usable(&other));
    other.handle().as_ref().unwrap().execute_batch("CREATE TABLE t (x INTEGER);").unwrap();
    release(other);
}

#[test]
fn uri_option_is_honoured() {
    let uri = OpenFlags::default().with(OpenOption::Uri);
    let connection = open("file:sqlite_access_uri?mode=memory", Some(uri), sqlite).unwrap();
    assert!(usable(&connection));
    assert!(!Path::new("file:sqlite_access_uri?mode=memory").exists());
    assert!(!Path::new("sqlite_access_uri").exists());
    release(connection);
}

#[test]
fn open_default_then_read_only_then_empty() {
    let first = open("/tmp/core_test_db1", None, sqlite);
    assert!(usable(first.as_ref().unwrap()));
    let second = open("/tmp/core_test_db1", Some(read_only()), sqlite);
    assert!(usable(second.as_ref().unwrap()));
    // An engine that rejects the empty path: the error is its rejection.
    let calls = Cell::new(0);
    let strict = |text: Vec<u8>, bits: i32| {
        calls.set(calls.get() + 1);
        if text == [0] {
            NativeReply { status: SQLITE_CANTOPEN, handle: None }
        } else {
            sqlite(text, bits)
        }
    };
    let third = open("", None, strict);
    assert!(third.is_err());
    assert_eq!(third.unwrap_err(), SqliteError { code: SQLITE_CANTOPEN });
    assert_eq!(calls.get(), 1);
}

#[test]
fn empty_filename_is_the_engines_to_judge() {
    // SQLite takes the empty name for a private temporary database.
    let connection = open("", None, sqlite).unwrap();
    assert!(usable(&connection));
    connection.handle().as_ref().unwrap().execute_batch("CREATE TABLE t (x INTEGER);").unwrap();
    release(connection);
}
