//! The outside work that bringing up a node takes, step by step.
//!
//! The plan of a set of options is the sequence of [`Step`]s that lead from
//! the options to a running node. It has three parts: the steps that create
//! the server state, one registration for each API module, and the two steps
//! that put the node into service.

use crate::api::options::Options;
use crate::api::topology::{optional, Module, Topology};
use vstd::prelude::*;

verus! {

/// What a data source is made of.
#[derive(Clone, Copy, Debug, PartialEq, Eq, Structural)]
pub enum Backend {
    /// A Postgres database, with the settings in `storage_sql`.
    Sql,
    /// The file system, with the settings in `storage_fs`.
    FileSystem,
    /// Nothing persistent: the data source only holds metrics.
    MetricsOnly,
}

/// Where consensus reports its metrics.
#[derive(Clone, Copy, Debug, PartialEq, Eq, Structural)]
pub enum MetricsSink {
    /// To the data source, which serves them through the status API.
    DataSource,
    /// Nowhere.
    NoOp,
}

/// One piece of outside work in the start-up of a node.
#[derive(Clone, Copy, Debug, PartialEq, Eq, Structural)]
pub enum Step {
    /// Create the data source. This can fail.
    CreateDataSource(Backend),
    /// Create the consensus handle and learn the index of this node, with
    /// metrics going to the given sink. Consensus does not run yet.
    AcquireHandle(MetricsSink),
    /// Subscribe to the events of consensus, for the task that keeps the
    /// data source up to date.
    SubscribeEvents,
    /// Register an API module with the server. This can fail.
    RegisterModule(Module),
    /// Bind the server to the port on all interfaces and spawn the task that
    /// runs it, together with the task that applies the subscribed events to
    /// the data source if `update_loop` is set.
    SpawnServer { port: u16, update_loop: bool },
    /// Start consensus.
    StartConsensus,
}

/// The steps that create the server state of a topology.
pub open spec fn prologue(topology: Topology) -> Seq<Step> {
    match topology {
        Topology::QuerySql => seq![
            Step::CreateDataSource(Backend::Sql),
            Step::AcquireHandle(MetricsSink::DataSource),
            Step::SubscribeEvents,
        ],
        Topology::QueryFs => seq![
            Step::CreateDataSource(Backend::FileSystem),
            Step::AcquireHandle(MetricsSink::DataSource),
            Step::SubscribeEvents,
        ],
        Topology::StatusOnly => seq![
            Step::CreateDataSource(Backend::MetricsOnly),
            Step::AcquireHandle(MetricsSink::DataSource),
        ],
        Topology::Minimal => seq![Step::AcquireHandle(MetricsSink::NoOp)],
    }
}

/// One registration for each module, in the order of the modules.
pub open spec fn registrations(modules: Seq<Module>) -> Seq<Step> {
    Seq::new(modules.len(), |i: int| Step::RegisterModule(modules[i]))
}

/// The two steps that put a node into service: first the server, then
/// consensus.
pub open spec fn epilogue(port: u16, update_loop: bool) -> Seq<Step> {
    seq![Step::SpawnServer { port, update_loop }, Step::StartConsensus]
}

impl Options {
    /// The plan of the options: state, modules, service.
    pub open spec fn spec_plan(&self) -> Seq<Step> {
        prologue(self.spec_topology()) + registrations(self.spec_modules()) + epilogue(
            self.http.port,
            self.spec_topology().is_query(),
        )
    }

    /// Where in the plan the consensus handle is acquired.
    pub open spec fn handle_position(&self) -> int {
        if self.spec_topology().has_data_source() {
            1
        } else {
            0
        }
    }

    /// The shape of a plan, position by position.
    ///
    /// The handle is acquired in exactly one place, early on. A subscription
    /// to events, if there is one, follows it at once and is the only one.
    /// Then come the registrations, as many as there are modules. The server
    /// is spawned in the last place but one; consensus is started in the
    /// last place, and nowhere else.
    pub proof fn lemma_plan_shape(&self)
        ensures
            self.spec_plan().len() == prologue(self.spec_topology()).len()
                + self.spec_modules().len() + 2,
            prologue(self.spec_topology()).len() == self.handle_position() + (if self.spec_topology().is_query() {
                2int
            } else {
                1int
            }),
            forall|i: int|
                0 <= i < self.spec_plan().len() ==> (#[trigger] self.spec_plan()[i]
                    is CreateDataSource <==> i == 0 && self.spec_topology().has_data_source()),
            forall|i: int|
                0 <= i < self.spec_plan().len() ==> (#[trigger] self.spec_plan()[i]
                    is AcquireHandle <==> i == self.handle_position()),
            forall|i: int|
                0 <= i < self.spec_plan().len() ==> (#[trigger] self.spec_plan()[i]
                    is SubscribeEvents <==> i == 2 && self.spec_topology().is_query()),
            forall|i: int|
                0 <= i < self.spec_plan().len() ==> (#[trigger] self.spec_plan()[i]
                    is RegisterModule <==> prologue(self.spec_topology()).len() <= i
                    < self.spec_plan().len() - 2),
            forall|i: int|
                prologue(self.spec_topology()).len() <= i < self.spec_plan().len() - 2
                    ==> #[trigger] self.spec_plan()[i] == Step::RegisterModule(
                    self.spec_modules()[i - prologue(self.spec_topology()).len()],
                ),
            self.spec_plan()[self.spec_plan().len() - 2] == (Step::SpawnServer {
                port: self.http.port,
                update_loop: self.spec_topology().is_query(),
            }),
            forall|i: int|
                0 <= i < self.spec_plan().len() ==> (#[trigger] self.spec_plan()[i]
                    is StartConsensus <==> i == self.spec_plan().len() - 1),
            forall|i: int|
                0 <= i < self.spec_plan().len() ==> (#[trigger] self.spec_plan()[i]
                    is SpawnServer <==> i == self.spec_plan().len() - 2),
    {
        let pro = prologue(self.spec_topology());
        let reg = registrations(self.spec_modules());
        let epi = epilogue(self.http.port, self.spec_topology().is_query());
        let plan = self.spec_plan();
        assert(plan == pro + reg + epi);
        assert forall|i: int| 0 <= i < plan.len() implies (if i < pro.len() {
            #[trigger] plan[i] == pro[i]
        } else if i < pro.len() + reg.len() {
            plan[i] == Step::RegisterModule(self.spec_modules()[i - pro.len()])
        } else {
            plan[i] == epi[i - pro.len() - reg.len()]
        }) by {}
    }

    /// Draws up the plan.
    ///
    /// With storage, the plan is that of
    /// [`plan_with_query_module`](Options::plan_with_query_module), over the
    /// database if one is set and else over the file system. With the status
    /// module alone the data source only holds metrics: the handle is
    /// acquired with its metrics, no events are subscribed to, and the status
    /// module is registered, then the submit module if it is asked for. With
    /// neither, the handle is acquired without metrics, and only the submit
    /// module is registered, if it is asked for. In both cases the server is
    /// then spawned on the port of the options. In every case, consensus is
    /// started last.
    pub fn plan(&self) -> (res: Vec<Step>)
        ensures
            res@ == self.spec_plan(),
    {
        let mut steps = match self.topology() {
            Topology::QuerySql => self.plan_with_query_module(Backend::Sql),
            Topology::QueryFs => self.plan_with_query_module(Backend::FileSystem),
            Topology::StatusOnly => {
                let mut steps: Vec<Step> = Vec::new();
                steps.push(Step::CreateDataSource(Backend::MetricsOnly));
                steps.push(Step::AcquireHandle(MetricsSink::DataSource));
                steps.push(Step::RegisterModule(Module::Status));
                if self.submit.is_some() {
                    steps.push(Step::RegisterModule(Module::Submit));
                }
                steps.push(Step::SpawnServer { port: self.http.port, update_loop: false });
                steps
            },
            Topology::Minimal => {
                let mut steps: Vec<Step> = Vec::new();
                steps.push(Step::AcquireHandle(MetricsSink::NoOp));
                if self.submit.is_some() {
                    steps.push(Step::RegisterModule(Module::Submit));
                }
                steps.push(Step::SpawnServer { port: self.http.port, update_loop: false });
                steps
            },
        };
        steps.push(Step::StartConsensus);
        assert(steps@ =~= self.spec_plan());
        steps
    }

    /// Draws up the plan of a server with the query API, up to the point
    /// where the server is spawned.
    ///
    /// The data source is created from the given storage, and the handle is
    /// acquired with its metrics. The events of consensus are subscribed to
    /// next, before anything else is done with the handle. Then the submit
    /// and the status module are registered, each if it is asked for, and
    /// the availability module in any case. The server is spawned together
    /// with the task that feeds the events to the data source.
    pub fn plan_with_query_module(&self, backend: Backend) -> (res: Vec<Step>)
        ensures
            res@ == seq![
                Step::CreateDataSource(backend),
                Step::AcquireHandle(MetricsSink::DataSource),
                Step::SubscribeEvents,
            ] + registrations(
                optional(self.submit.is_some(), Module::Submit) + optional(
                    self.status.is_some(),
                    Module::Status,
                ) + seq![Module::Availability],
            ) + seq![Step::SpawnServer { port: self.http.port, update_loop: true }],
    {
        let mut steps: Vec<Step> = Vec::new();
        steps.push(Step::CreateDataSource(backend));
        steps.push(Step::AcquireHandle(MetricsSink::DataSource));
        steps.push(Step::SubscribeEvents);
        if self.submit.is_some() {
            steps.push(Step::RegisterModule(Module::Submit));
        }
        if self.status.is_some() {
            steps.push(Step::RegisterModule(Module::Status));
        }
        steps.push(Step::RegisterModule(Module::Availability));
        steps.push(Step::SpawnServer { port: self.http.port, update_loop: true });
        steps
    }
}

} // verus!
