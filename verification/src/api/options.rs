//! Options of the HTTP API of a sequencer node.

use crate::persistence;
use vstd::prelude::*;

verus! {

/// The minimal HTTP API.
///
/// The API always includes the health and version endpoints. Further modules
/// are added through [`Options`].
#[derive(Clone, Copy, Debug, PartialEq, Eq)]
pub struct Http {
    /// Port that the HTTP API will use.
    pub port: u16,
}

/// Options for the submission API module.
#[derive(Clone, Copy, Debug, PartialEq, Eq)]
pub struct Submit;

/// Options for the status API module.
#[derive(Clone, Copy, Debug, PartialEq, Eq)]
pub struct Status;

/// Options for the query API module.
#[derive(Clone, Copy, Debug, PartialEq, Eq)]
pub struct Query;

impl Default for Submit {
    fn default() -> (res: Self)
        ensures
            res == Submit,
    {
        Submit
    }
}

impl Default for Status {
    fn default() -> (res: Self)
        ensures
            res == Status,
    {
        Status
    }
}

impl Default for Query {
    fn default() -> (res: Self)
        ensures
            res == Query,
    {
        Query
    }
}

/// What the API of a node is to serve, and from which storage.
///
/// Both kinds of storage can be set at once; the database then takes
/// precedence (see [`Options::topology`](Options::topology)).
#[derive(Clone, Debug, PartialEq, Eq)]
pub struct Options {
    pub http: Http,
    pub query: Option<Query>,
    pub submit: Option<Submit>,
    pub status: Option<Status>,
    pub storage_fs: Option<persistence::fs::Options>,
    pub storage_sql: Option<persistence::sql::Options>,
}

impl From<Http> for Options {
    fn from(http: Http) -> (res: Self) {
        Self {
            http,
            query: None,
            submit: None,
            status: None,
            storage_fs: None,
            storage_sql: None,
        }
    }
}

impl vstd::std_specs::convert::FromSpecImpl<Http> for Options {
    open spec fn obeys_from_spec() -> bool {
        true
    }

    /// The bare API on the given port: no module, no storage.
    open spec fn from_spec(http: Http) -> Self {
        Options {
            http,
            query: None,
            submit: None,
            status: None,
            storage_fs: None,
            storage_sql: None,
        }
    }
}

impl Options {
    /// Add a query API module backed by a Postgres database.
    pub fn query_sql(self, query: Query, storage: persistence::sql::Options) -> (res: Self)
        ensures
            res == (Options { query: Some(query), storage_sql: Some(storage), ..self }),
    {
        let mut opts = self;
        opts.query = Some(query);
        opts.storage_sql = Some(storage);
        opts
    }

    /// Add a query API module backed by the file system.
    pub fn query_fs(self, query: Query, storage: persistence::fs::Options) -> (res: Self)
        ensures
            res == (Options { query: Some(query), storage_fs: Some(storage), ..self }),
    {
        let mut opts = self;
        opts.query = Some(query);
        opts.storage_fs = Some(storage);
        opts
    }

    /// Add a submit API module.
    pub fn submit(self, opt: Submit) -> (res: Self)
        ensures
            res == (Options { submit: Some(opt), ..self }),
    {
        let mut opts = self;
        opts.submit = Some(opt);
        opts
    }

    /// Add a status API module.
    pub fn status(self, opt: Status) -> (res: Self)
        ensures
            res == (Options { status: Some(opt), ..self }),
    {
        let mut opts = self;
        opts.status = Some(opt);
        opts
    }

    /// Whether these options will run the query API: the module was asked
    /// for, and there is storage to serve it from.
    pub fn has_query_module(&self) -> (res: bool)
        ensures
            res == (self.query.is_some() && (self.storage_fs.is_some()
                || self.storage_sql.is_some())),
            res ==> self.spec_topology().is_query(),
    {
        self.query.is_some() && (self.storage_fs.is_some() || self.storage_sql.is_some())
    }
}

} // verus!
