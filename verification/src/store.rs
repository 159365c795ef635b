//! How the store is opened: where the database lies and how many
//! connections its pool may hold.

use vstd::prelude::*;

verus! {

/// The pool of a database in memory holds one connection, so that every
/// query sees the same database.
pub const MEMORY_CONNECTIONS: u32 = 1;

/// The pool of a database in a file holds up to this many connections.
pub const FILE_CONNECTIONS: u32 = 32;

/// How to connect to the store.
#[derive(Debug)]
pub struct Connection {
    /// The URL of the database.
    pub url: String,
    /// The largest number of connections in the pool.
    pub max_connections: u32,
}

/// The mathematical value of a [`Connection`].
#[verifier::ext_equal]
pub struct ConnectionView {
    pub url: Seq<char>,
    pub max_connections: u32,
}

impl View for Connection {
    type V = ConnectionView;

    open spec fn view(&self) -> ConnectionView {
        ConnectionView { url: self.url@, max_connections: self.max_connections }
    }
}

/// The connection for a path: the path `memory` names a database in memory,
/// any other path a file.
pub open spec fn connection_for(path: Seq<char>) -> ConnectionView {
    if path == "memory"@ {
        ConnectionView { url: ":memory:"@, max_connections: MEMORY_CONNECTIONS }
    } else {
        ConnectionView { url: "sqlite://"@ + path, max_connections: FILE_CONNECTIONS }
    }
}

/// How to connect to the store at `path`.
pub fn connection(path: &str) -> (c: Connection)
    ensures
        c@ == connection_for(path@),
{
    if String::from_str(path) == String::from_str("memory") {
        Connection { url: String::from_str(":memory:"), max_connections: MEMORY_CONNECTIONS }
    } else {
        Connection {
            url: String::from_str("sqlite://").concat(path),
            max_connections: FILE_CONNECTIONS,
        }
    }
}

} // verus!
