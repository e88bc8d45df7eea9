//! The arrangement of the server that a set of options asks for.
//!
//! Every set of options selects exactly one [`Topology`]. The topology and the
//! options together fix the API modules that the server registers, and the
//! order in which it registers them.

use crate::api::options::Options;
use vstd::prelude::*;

verus! {

/// One of the four mutually exclusive arrangements of server and consensus.
#[derive(Clone, Copy, Debug, PartialEq, Eq, Structural)]
pub enum Topology {
    /// The query API is served from a Postgres database.
    QuerySql,
    /// The query API is served from the file system.
    QueryFs,
    /// No storage; the status API reads a data source that only holds
    /// metrics.
    StatusOnly,
    /// No storage and no metrics: the server state is the consensus handle
    /// alone.
    Minimal,
}

/// An API module that can be registered with the server, beside the health
/// and version endpoints that are always there.
#[derive(Clone, Copy, Debug, PartialEq, Eq, Structural)]
pub enum Module {
    /// Forwards transactions to consensus.
    Submit,
    /// Reads the state of consensus and of the node.
    Status,
    /// Reads the stored query data.
    Availability,
}

impl Topology {
    /// Whether the topology serves the query API.
    pub open spec fn spec_is_query(&self) -> bool {
        *self == Topology::QuerySql || *self == Topology::QueryFs
    }

    /// Whether the topology serves the query API, and so keeps a data source
    /// up to date from the events of consensus.
    #[verifier::when_used_as_spec(spec_is_query)]
    pub fn is_query(&self) -> (res: bool)
        ensures
            res == self.spec_is_query(),
    {
        match self {
            Topology::QuerySql | Topology::QueryFs => true,
            Topology::StatusOnly | Topology::Minimal => false,
        }
    }

    /// Whether the topology has a data source at all.
    pub open spec fn spec_has_data_source(&self) -> bool {
        *self != Topology::Minimal
    }

    /// Whether the topology has a data source at all, be it storage or the
    /// holder of metrics.
    #[verifier::when_used_as_spec(spec_has_data_source)]
    pub fn has_data_source(&self) -> (res: bool)
        ensures
            res == self.spec_has_data_source(),
    {
        match self {
            Topology::Minimal => false,
            _ => true,
        }
    }
}

impl Module {
    /// The name under which the module is registered.
    pub open spec fn spec_name(&self) -> Seq<char> {
        match self {
            Module::Submit => "submit"@,
            Module::Status => "status"@,
            Module::Availability => "availability"@,
        }
    }

    /// The name under which the module is registered, which is also the first
    /// segment of the path of each of its routes.
    pub fn name(&self) -> (res: &'static str)
        ensures
            res@ == self.spec_name(),
    {
        match self {
            Module::Submit => "submit",
            Module::Status => "status",
            Module::Availability => "availability",
        }
    }
}

/// The sequence that holds `module` if `enabled`, and nothing otherwise.
pub open spec fn optional(enabled: bool, module: Module) -> Seq<Module> {
    if enabled {
        seq![module]
    } else {
        Seq::empty()
    }
}

impl Options {
    /// The topology that the options select: the first of database, file
    /// system storage and status module that is set, in this order of
    /// precedence, decides.
    pub open spec fn spec_topology(&self) -> Topology {
        if self.storage_sql.is_some() {
            Topology::QuerySql
        } else if self.storage_fs.is_some() {
            Topology::QueryFs
        } else if self.status.is_some() {
            Topology::StatusOnly
        } else {
            Topology::Minimal
        }
    }

    /// Selects the topology. Every set of options selects one: storage means
    /// the query API, whatever else is set, and where both kinds of storage
    /// are set the database wins; without storage the status module decides
    /// between [`Topology::StatusOnly`] and [`Topology::Minimal`].
    #[verifier::when_used_as_spec(spec_topology)]
    pub fn topology(&self) -> (res: Topology)
        ensures
            res == self.spec_topology(),
            self.storage_sql.is_some() ==> res == Topology::QuerySql,
            res == Topology::QueryFs <==> self.storage_sql.is_none() && self.storage_fs.is_some(),
            res.is_query() <==> self.storage_sql.is_some() || self.storage_fs.is_some(),
            res == Topology::StatusOnly ==> self.status.is_some(),
            res == Topology::Minimal ==> self.status.is_none(),
    {
        if self.storage_sql.is_some() {
            Topology::QuerySql
        } else if self.storage_fs.is_some() {
            Topology::QueryFs
        } else if self.status.is_some() {
            Topology::StatusOnly
        } else {
            Topology::Minimal
        }
    }

    /// The modules that the server registers, in the order of registration.
    pub open spec fn spec_modules(&self) -> Seq<Module> {
        match self.spec_topology() {
            Topology::QuerySql | Topology::QueryFs => optional(
                self.submit.is_some(),
                Module::Submit,
            ) + optional(self.status.is_some(), Module::Status) + seq![Module::Availability],
            Topology::StatusOnly => seq![Module::Status] + optional(
                self.submit.is_some(),
                Module::Submit,
            ),
            Topology::Minimal => optional(self.submit.is_some(), Module::Submit),
        }
    }

    /// Each module is registered exactly if it is asked for: the submit and
    /// the status module by their options, the availability module by the
    /// presence of storage. No module is registered twice.
    pub proof fn modules_match_options(&self)
        ensures
            self.spec_modules().contains(Module::Submit) <==> self.submit.is_some(),
            self.spec_modules().contains(Module::Status) <==> self.status.is_some(),
            self.spec_modules().contains(Module::Availability) <==> self.spec_topology().is_query(),
            self.spec_modules().no_duplicates(),
            self.spec_modules().len() <= 3,
    {
        let m = self.spec_modules();
        let submit = optional(self.submit.is_some(), Module::Submit);
        let status = optional(self.status.is_some(), Module::Status);
        match self.spec_topology() {
            Topology::QuerySql | Topology::QueryFs => {
                let all = submit + status + seq![Module::Availability];
                assert(m == all);
                assert(all[all.len() - 1] == Module::Availability);
                if self.submit.is_some() {
                    assert(all[0] == Module::Submit);
                }
                if self.status.is_some() {
                    assert(all[submit.len() as int] == Module::Status);
                }
            },
            Topology::StatusOnly => {
                let all = seq![Module::Status] + submit;
                assert(m == all);
                assert(all[0] == Module::Status);
                if self.submit.is_some() {
                    assert(all[1] == Module::Submit);
                }
            },
            Topology::Minimal => {
                if self.submit.is_some() {
                    assert(m[0] == Module::Submit);
                }
            },
        }
    }

    /// Lists the modules to register, in the order of registration.
    ///
    /// With storage: submit and status, each if asked for, then availability.
    /// Without: status, if asked for, then submit, if asked for.
    pub fn modules(&self) -> (res: Vec<Module>)
        ensures
            res@ == self.spec_modules(),
            res@.contains(Module::Submit) <==> self.submit.is_some(),
            res@.contains(Module::Status) <==> self.status.is_some(),
            res@.contains(Module::Availability) <==> self.spec_topology().is_query(),
            res@.no_duplicates(),
    {
        let mut list: Vec<Module> = Vec::new();
        if self.topology().is_query() {
            if self.submit.is_some() {
                list.push(Module::Submit);
            }
            if self.status.is_some() {
                list.push(Module::Status);
            }
            list.push(Module::Availability);
        } else {
            if self.status.is_some() {
                list.push(Module::Status);
            }
            if self.submit.is_some() {
                list.push(Module::Submit);
            }
        }
        proof {
            assert(list@ =~= self.spec_modules());
            self.modules_match_options();
        }
        list
    }
}

} // verus!
