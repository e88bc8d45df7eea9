//! The start-up of a node, as a sequence that the caller drives.
//!
//! [`Options::serve`] turns the options into a [`Startup`]. The caller then
//! repeats two things until the sequence is over: it does what
//! [`Startup::pending`] asks for, and reports what came of it to
//! [`Startup::advance`]. The sequence walks the plan of the options and ends
//! in one of two ways: with [`Action::Finish`], once every step of the plan
//! is done and consensus runs, or with [`Action::Abort`], as soon as one step
//! has failed. Nothing in between is handed out as a result.
//!
//! What a `Startup` holds is described by its view, a [`Progress`]. The rules
//! of the sequence are the spec functions of `Progress`.

use crate::api::options::Options;
use crate::api::plan::Step;
use crate::api::topology::Module;
use vstd::prelude::*;

verus! {

/// What the caller reports back after it has worked on a step.
#[derive(Clone, Copy, Debug, PartialEq, Eq, Structural)]
pub enum Event {
    /// The data source exists.
    DataSourceCreated,
    /// The storage could not be opened or created.
    DataSourceFailed,
    /// The consensus handle exists, and this node has the given index.
    HandleAcquired { node_index: u64 },
    /// The subscription to the events of consensus stands.
    EventStreamSubscribed,
    /// The module is registered.
    ModuleRegistered,
    /// The module could not be defined, or the server did not take it.
    ModuleRejected,
    /// The task that runs the server is spawned.
    ServerSpawned,
    /// Consensus has started.
    ConsensusStarted,
}

/// Why a start-up was given up.
#[derive(Clone, Copy, Debug, PartialEq, Eq, Structural)]
pub enum StartupError {
    /// The data source could not be created.
    StorageInit,
    /// The given module could not be registered.
    ModuleRegistration(Module),
    /// The caller reported something that the pending step cannot end in.
    UnexpectedEvent,
}

/// What a start-up that went through hands to the caller, beside the handle
/// and the background task that the caller made on the way.
#[derive(Clone, Copy, Debug, PartialEq, Eq, Structural)]
pub struct ServerResult {
    /// The index of this node, as it was reported with the handle.
    pub node_index: u64,
}

/// What the caller is to do next.
#[derive(Clone, Copy, Debug, PartialEq, Eq, Structural)]
pub enum Action {
    /// Do this piece of work, and report what came of it.
    Perform(Step),
    /// The node runs. Return it.
    Finish(ServerResult),
    /// The start-up has failed. Return the error.
    Abort(StartupError),
}

/// How far a start-up has come. Each phase is named after what has been
/// reached; a phase whose work a topology does not need counts as reached
/// with the one before it.
#[derive(Clone, Copy, Debug, PartialEq, Eq, Structural)]
pub enum Phase {
    /// There are options; a data source is yet to be created.
    Configured,
    /// The data source exists, if the topology has one.
    DataSourceReady,
    /// The consensus handle exists, and the index of the node is known.
    ConsensusHandleAcquired,
    /// The events of consensus are subscribed to. Only a topology with
    /// storage comes through here.
    EventStreamSubscribed,
    /// Every module of the options is registered.
    ModulesRegistered,
    /// The server runs in its task.
    ServerSpawned,
    /// Consensus has started: the node is complete.
    Running,
    /// A step has failed. There is no node.
    Aborted,
}

impl Step {
    /// What an event means for this step, if this step is the pending one:
    /// `Ok` if the event reports that the step is done, else the error that
    /// ends the start-up.
    pub open spec fn spec_outcome(&self, event: Event) -> Result<(), StartupError> {
        match (*self, event) {
            (Step::CreateDataSource(_), Event::DataSourceCreated) => Ok(()),
            (Step::CreateDataSource(_), Event::DataSourceFailed) => Err(StartupError::StorageInit),
            (Step::AcquireHandle(_), Event::HandleAcquired { .. }) => Ok(()),
            (Step::SubscribeEvents, Event::EventStreamSubscribed) => Ok(()),
            (Step::RegisterModule(_), Event::ModuleRegistered) => Ok(()),
            (Step::RegisterModule(module), Event::ModuleRejected) => Err(
                StartupError::ModuleRegistration(module),
            ),
            (Step::SpawnServer { .. }, Event::ServerSpawned) => Ok(()),
            (Step::StartConsensus, Event::ConsensusStarted) => Ok(()),
            _ => Err(StartupError::UnexpectedEvent),
        }
    }

    /// Judges an event against this step.
    ///
    /// Each step has one event that reports it done. The creation of the data
    /// source and the registration of a module each have a second one, which
    /// reports their failure. Any other event is out of place.
    #[verifier::when_used_as_spec(spec_outcome)]
    pub fn outcome(&self, event: Event) -> (res: Result<(), StartupError>)
        ensures
            res == self.spec_outcome(event),
    {
        match self {
            Step::CreateDataSource(_) => match event {
                Event::DataSourceCreated => Ok(()),
                Event::DataSourceFailed => Err(StartupError::StorageInit),
                _ => Err(StartupError::UnexpectedEvent),
            },
            Step::AcquireHandle(_) => match event {
                Event::HandleAcquired { .. } => Ok(()),
                _ => Err(StartupError::UnexpectedEvent),
            },
            Step::SubscribeEvents => match event {
                Event::EventStreamSubscribed => Ok(()),
                _ => Err(StartupError::UnexpectedEvent),
            },
            Step::RegisterModule(module) => match event {
                Event::ModuleRegistered => Ok(()),
                Event::ModuleRejected => Err(StartupError::ModuleRegistration(*module)),
                _ => Err(StartupError::UnexpectedEvent),
            },
            Step::SpawnServer { .. } => match event {
                Event::ServerSpawned => Ok(()),
                _ => Err(StartupError::UnexpectedEvent),
            },
            Step::StartConsensus => match event {
                Event::ConsensusStarted => Ok(()),
                _ => Err(StartupError::UnexpectedEvent),
            },
        }
    }
}

/// The state of a start-up: the options it works from, how many steps of
/// their plan are done, the index of the node once it is known, and the
/// failure that ended it, if one did.
pub struct Progress {
    pub options: Options,
    pub done: nat,
    pub node_index: Option<u64>,
    pub failure: Option<StartupError>,
}

impl Progress {
    /// The state in which a start-up begins.
    pub open spec fn start(options: Options) -> Progress {
        Progress { options, done: 0, node_index: None, failure: None }
    }

    /// The plan that the start-up walks.
    pub open spec fn plan(self) -> Seq<Step> {
        self.options.spec_plan()
    }

    /// Whether the start-up has ended, one way or the other.
    pub open spec fn over(self) -> bool {
        self.failure.is_some() || self.done >= self.plan().len()
    }

    /// What the caller is to do in this state: give up after a failure,
    /// else work on the first step that is not done, else take the result.
    pub open spec fn pending(self) -> Action {
        if let Some(error) = self.failure {
            Action::Abort(error)
        } else if self.done < self.plan().len() {
            Action::Perform(self.plan()[self.done as int])
        } else {
            Action::Finish(ServerResult { node_index: self.node_index->0 })
        }
    }

    /// The state after an event. An event that reports the pending step done
    /// moves the start-up on by one step; the one that comes with the handle
    /// brings the index of the node. Any other event ends the start-up in
    /// failure. Once the start-up is over, events change nothing.
    pub open spec fn advance(self, event: Event) -> Progress {
        if self.over() {
            self
        } else {
            match self.plan()[self.done as int].spec_outcome(event) {
                Ok(_) => Progress {
                    done: self.done + 1,
                    node_index: if let Event::HandleAcquired { node_index } = event {
                        Some(node_index)
                    } else {
                        self.node_index
                    },
                    ..self
                },
                Err(error) => Progress { failure: Some(error), ..self },
            }
        }
    }

    /// The phase that the start-up is in: the last one that is reached
    /// before the pending step.
    pub open spec fn phase(self) -> Phase {
        match self.pending() {
            Action::Perform(Step::CreateDataSource(_)) => Phase::Configured,
            Action::Perform(Step::AcquireHandle(_)) => Phase::DataSourceReady,
            Action::Perform(Step::SubscribeEvents) => Phase::ConsensusHandleAcquired,
            Action::Perform(Step::RegisterModule(_)) => if self.options.spec_topology().is_query() {
                Phase::EventStreamSubscribed
            } else {
                Phase::ConsensusHandleAcquired
            },
            Action::Perform(Step::SpawnServer { .. }) => Phase::ModulesRegistered,
            Action::Perform(Step::StartConsensus) => Phase::ServerSpawned,
            Action::Finish(_) => Phase::Running,
            Action::Abort(_) => Phase::Aborted,
        }
    }
}

/// A start-up under way.
pub struct Startup {
    options: Options,
    plan: Vec<Step>,
    done: usize,
    node_index: Option<u64>,
    failure: Option<StartupError>,
}

impl View for Startup {
    type V = Progress;

    closed spec fn view(&self) -> Progress {
        Progress {
            options: self.options,
            done: self.done as nat,
            node_index: self.node_index,
            failure: self.failure,
        }
    }
}

impl Startup {
    /// The plan is that of the options, no more of it is done than there is,
    /// and past the step that acquires the handle the index of the node is
    /// known.
    #[verifier::type_invariant]
    spec fn inv(self) -> bool {
        &&& self.plan@ == self.options.spec_plan()
        &&& self.done <= self.plan@.len()
        &&& self.done > self.options.handle_position() ==> self.node_index.is_some()
    }

    /// The options that the start-up works from.
    pub fn options(&self) -> (res: &Options)
        ensures
            *res == self@.options,
    {
        &self.options
    }

    /// What the caller is to do next.
    ///
    /// After a failure this is [`Action::Abort`] with the error. Else it is
    /// the first step of the plan that is not done, and once all are done,
    /// [`Action::Finish`] with the index of the node.
    pub fn pending(&self) -> (res: Action)
        ensures
            res == self@.pending(),
    {
        proof {
            use_type_invariant(self);
            self.options.lemma_plan_shape();
        }
        match self.failure {
            Some(error) => Action::Abort(error),
            None => {
                if self.done < self.plan.len() {
                    Action::Perform(self.plan[self.done])
                } else {
                    Action::Finish(ServerResult { node_index: self.node_index.unwrap() })
                }
            },
        }
    }

    /// Takes in what came of the pending step, and tells what to do next.
    ///
    /// See [`Progress::advance`] for the rules. The action in the result is
    /// the one that is pending in the new state.
    pub fn advance(self, event: Event) -> (res: (Startup, Action))
        ensures
            res.0@ == self@.advance(event),
            res.1 == res.0@.pending(),
    {
        proof {
            use_type_invariant(&self);
            self.options.lemma_plan_shape();
        }
        let next = if self.failure.is_some() || self.done >= self.plan.len() {
            self
        } else {
            let step = self.plan[self.done];
            match step.outcome(event) {
                Ok(_) => {
                    let node_index = match event {
                        Event::HandleAcquired { node_index } => Some(node_index),
                        _ => self.node_index,
                    };
                    Startup {
                        options: self.options,
                        plan: self.plan,
                        done: self.done + 1,
                        node_index,
                        failure: self.failure,
                    }
                },
                Err(error) => Startup {
                    options: self.options,
                    plan: self.plan,
                    done: self.done,
                    node_index: self.node_index,
                    failure: Some(error),
                },
            }
        };
        let action = next.pending();
        (next, action)
    }

    /// The phase that the start-up is in.
    pub fn phase(&self) -> (res: Phase)
        ensures
            res == self@.phase(),
    {
        match self.pending() {
            Action::Perform(step) => match step {
                Step::CreateDataSource(_) => Phase::Configured,
                Step::AcquireHandle(_) => Phase::DataSourceReady,
                Step::SubscribeEvents => Phase::ConsensusHandleAcquired,
                Step::RegisterModule(_) => if self.options.topology().is_query() {
                    Phase::EventStreamSubscribed
                } else {
                    Phase::ConsensusHandleAcquired
                },
                Step::SpawnServer { .. } => Phase::ModulesRegistered,
                Step::StartConsensus => Phase::ServerSpawned,
            },
            Action::Finish(_) => Phase::Running,
            Action::Abort(_) => Phase::Aborted,
        }
    }
}

impl Options {
    /// Starts the server: begins the start-up that these options ask for.
    ///
    /// Nothing has been done yet when this returns. The result tells, step
    /// by step, what is to be done (see [`Startup::pending`]).
    pub fn serve(self) -> (res: Startup)
        ensures
            res@ == Progress::start(self),
    {
        let plan = self.plan();
        Startup { options: self, plan, done: 0, node_index: None, failure: None }
    }
}

} // verus!
