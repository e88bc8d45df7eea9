//! Storage in a Postgres database.

use vstd::prelude::*;

verus! {

/// Settings of the connection to the database.
#[derive(Clone, Debug, PartialEq, Eq)]
pub struct Options {
    /// Name of the host that runs the database server.
    pub host: String,
    /// Port of the database server.
    pub port: u16,
    /// Name of the database.
    pub database: String,
    /// User to connect as.
    pub user: String,
    /// Password of that user.
    pub password: String,
    /// Whether the connection is encrypted.
    pub use_tls: bool,
}

} // verus!
