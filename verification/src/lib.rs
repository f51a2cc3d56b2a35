//! Delegated authority to open a connection to an SQLite database.
//!
//! Code that only knows the connection type cannot open anything. It has to
//! be handed an authority, a value that says exactly what may be opened and
//! how, and the authority is spent by its one attempt.

pub mod access;
pub mod connection;
pub mod status;
pub mod text;
