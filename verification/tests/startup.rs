use sequencer::api::options::{Http, Options, Query, Status, Submit};
use sequencer::api::plan::{Backend, MetricsSink, Step};
use sequencer::api::startup::{Action, Event, Phase, ServerResult, Startup, StartupError};
use sequencer::api::topology::Module;
use sequencer::persistence;

fn sql_store() -> persistence::sql::Options {
    persistence::sql::Options {
        host: String::from("localhost"),
        port: 5432,
        database: String::from("sequencer"),
        user: String::from("node"),
        password: String::from("pw"),
        use_tls: false,
    }
}

fn fs_store(path: &str) -> persistence::fs::Options {
    persistence::fs::Options { path: String::from(path) }
}

fn every_options() -> Vec<Options> {
    let mut all = Vec::new();
    for bits in 0..16u8 {
        let mut options = Options::from(Http { port: 8080 });
        if bits & 1 != 0 {
            options = options.query_sql(Query, sql_store());
        }
        if bits & 2 != 0 {
            options = options.query_fs(Query, fs_store("/tmp/x"));
        }
        if bits & 4 != 0 {
            options = options.status(Status);
        }
        if bits & 8 != 0 {
            options = options.submit(Submit);
        }
        all.push(options);
    }
    all
}

fn every_event() -> Vec<Event> {
    vec![
        Event::DataSourceCreated,
        Event::DataSourceFailed,
        Event::HandleAcquired { node_index: 3 },
        Event::EventStreamSubscribed,
        Event::ModuleRegistered,
        Event::ModuleRejected,
        Event::ServerSpawned,
        Event::ConsensusStarted,
    ]
}

/// The collaborators of a start-up, which do nothing but keep a record of
/// what they were asked to do, in the order of the calls.
struct Recorder {
    node_index: u64,
    storage_fails: bool,
    rejected: Option<Module>,
    calls: Vec<Step>,
}

impl Recorder {
    fn new(node_index: u64) -> Self {
        Recorder { node_index, storage_fails: false, rejected: None, calls: Vec::new() }
    }

    fn perform(&mut self, step: Step) -> Event {
        self.calls.push(step);
        match step {
            Step::CreateDataSource(_) => {
                if self.storage_fails {
                    Event::DataSourceFailed
                } else {
                    Event::DataSourceCreated
                }
            }
            Step::AcquireHandle(_) => Event::HandleAcquired { node_index: self.node_index },
            Step::SubscribeEvents => Event::EventStreamSubscribed,
            Step::RegisterModule(module) => {
                if self.rejected == Some(module) {
                    Event::ModuleRejected
                } else {
                    Event::ModuleRegistered
                }
            }
            Step::SpawnServer { .. } => Event::ServerSpawned,
            Step::StartConsensus => Event::ConsensusStarted,
        }
    }

    fn run(&mut self, options: Options) -> Result<ServerResult, StartupError> {
        let mut startup = options.serve();
        let mut action = startup.pending();
        loop {
            match action {
                Action::Perform(step) => {
                    let event = self.perform(step);
                    (startup, action) = startup.advance(event);
                }
                Action::Finish(result) => {
                    assert_eq!(startup.phase(), Phase::Running);
                    return Ok(result);
                }
                Action::Abort(error) => {
                    assert_eq!(startup.phase(), Phase::Aborted);
                    return Err(error);
                }
            }
        }
    }

    fn place_of(&self, step: Step) -> Option<usize> {
        self.calls.iter().position(|call| *call == step)
    }

    fn registered(&self) -> Vec<Module> {
        self.calls
            .iter()
            .filter_map(|call| match call {
                Step::RegisterModule(module) => Some(*module),
                _ => None,
            })
            .collect()
    }
}

fn feed(options: Options, events: &[Event]) -> (Startup, Vec<Action>) {
    let mut startup = options.serve();
    let mut actions = vec![startup.pending()];
    for event in events {
        let (next, action) = startup.advance(*event);
        startup = next;
        actions.push(action);
    }
    (startup, actions)
}

#[test]
fn file_system_query_with_submit_comes_up() {
    let options = Options::from(Http { port: 8080 })
        .query_fs(Query, fs_store("/tmp/x"))
        .submit(Submit);
    assert!(options.has_query_module());
    let startup = options.clone().serve();
    assert_eq!(startup.options().storage_fs, Some(fs_store("/tmp/x")));
    assert_eq!(startup.pending(), Action::Perform(Step::CreateDataSource(Backend::FileSystem)));

    let mut recorder = Recorder::new(42);
    let result = recorder.run(options);
    assert_eq!(result, Ok(ServerResult { node_index: 42 }));
    assert_eq!(recorder.registered(), vec![Module::Submit, Module::Availability]);
    let subscribed = recorder.place_of(Step::SubscribeEvents).unwrap();
    let started = recorder.place_of(Step::StartConsensus).unwrap();
    assert!(subscribed < started);
    assert_eq!(
        recorder.calls,
        vec![
            Step::CreateDataSource(Backend::FileSystem),
            Step::AcquireHandle(MetricsSink::DataSource),
            Step::SubscribeEvents,
            Step::RegisterModule(Module::Submit),
            Step::RegisterModule(Module::Availability),
            Step::SpawnServer { port: 8080, update_loop: true },
            Step::StartConsensus,
        ]
    );
}

#[test]
fn status_without_storage_comes_up() {
    let options = Options::from(Http { port: 9000 }).status(Status);
    let mut recorder = Recorder::new(5);
    let result = recorder.run(options);
    assert_eq!(result, Ok(ServerResult { node_index: 5 }));
    assert_eq!(recorder.calls[0], Step::CreateDataSource(Backend::MetricsOnly));
    assert_eq!(recorder.calls[1], Step::AcquireHandle(MetricsSink::DataSource));
    assert_eq!(recorder.registered(), vec![Module::Status]);
    assert_eq!(recorder.place_of(Step::SubscribeEvents), None);
    assert_eq!(
        recorder.place_of(Step::SpawnServer { port: 9000, update_loop: false }),
        Some(3)
    );
    assert_eq!(recorder.calls.len(), 5);
}

#[test]
fn bare_options_serve_only_health_and_version() {
    let options = Options::from(Http { port: 8080 });
    let mut recorder = Recorder::new(0);
    let result = recorder.run(options);
    assert_eq!(result, Ok(ServerResult { node_index: 0 }));
    assert_eq!(recorder.registered(), Vec::<Module>::new());
    assert_eq!(
        recorder.calls,
        vec![
            Step::AcquireHandle(MetricsSink::NoOp),
            Step::SpawnServer { port: 8080, update_loop: false },
            Step::StartConsensus,
        ]
    );
}

#[test]
fn conflicting_storage_creates_the_database() {
    let options = Options::from(Http { port: 8080 })
        .query_fs(Query, fs_store("/tmp/x"))
        .query_sql(Query, sql_store());
    let mut recorder = Recorder::new(1);
    assert_eq!(recorder.run(options), Ok(ServerResult { node_index: 1 }));
    assert_eq!(recorder.calls[0], Step::CreateDataSource(Backend::Sql));
    assert_eq!(recorder.place_of(Step::CreateDataSource(Backend::FileSystem)), None);
}

#[test]
fn failing_storage_prevents_registration_and_consensus() {
    for options in every_options() {
        if !options.topology().is_query() {
            continue;
        }
        let mut recorder = Recorder::new(9);
        recorder.storage_fails = true;
        assert_eq!(recorder.run(options), Err(StartupError::StorageInit));
        assert_eq!(recorder.calls.len(), 1);
        assert!(matches!(recorder.calls[0], Step::CreateDataSource(_)));
        assert_eq!(recorder.registered(), Vec::<Module>::new());
        assert_eq!(recorder.place_of(Step::StartConsensus), None);
    }
}

#[test]
fn failing_storage_stays_failed_whatever_is_reported_next() {
    let options = Options::from(Http { port: 8080 })
        .query_sql(Query, sql_store())
        .submit(Submit)
        .status(Status);
    for second in every_event() {
        for third in every_event() {
            let (startup, actions) =
                feed(options.clone(), &[Event::DataSourceFailed, second, third]);
            assert_eq!(actions[0], Action::Perform(Step::CreateDataSource(Backend::Sql)));
            assert_eq!(actions[1], Action::Abort(StartupError::StorageInit));
            assert_eq!(actions[2], Action::Abort(StartupError::StorageInit));
            assert_eq!(actions[3], Action::Abort(StartupError::StorageInit));
            assert_eq!(startup.phase(), Phase::Aborted);
        }
    }
}

#[test]
fn rejected_module_aborts_with_that_module() {
    let options = Options::from(Http { port: 8080 })
        .query_fs(Query, fs_store("/tmp/x"))
        .submit(Submit)
        .status(Status);
    for module in [Module::Submit, Module::Status, Module::Availability] {
        let mut recorder = Recorder::new(2);
        recorder.rejected = Some(module);
        assert_eq!(recorder.run(options.clone()), Err(StartupError::ModuleRegistration(module)));
        assert_eq!(*recorder.calls.last().unwrap(), Step::RegisterModule(module));
        assert!(recorder.calls.iter().all(|call| !matches!(call, Step::SpawnServer { .. })));
        assert_eq!(recorder.place_of(Step::StartConsensus), None);
    }
}

#[test]
fn unexpected_event_aborts() {
    let options = Options::from(Http { port: 8080 }).submit(Submit);
    let (startup, actions) = feed(options, &[Event::ServerSpawned]);
    assert_eq!(actions[0], Action::Perform(Step::AcquireHandle(MetricsSink::NoOp)));
    assert_eq!(actions[1], Action::Abort(StartupError::UnexpectedEvent));
    assert_eq!(startup.phase(), Phase::Aborted);
}

#[test]
fn failed_storage_report_without_storage_aborts_too() {
    let options = Options::from(Http { port: 8080 });
    let (_, actions) = feed(options, &[Event::DataSourceFailed, Event::ConsensusStarted]);
    assert_eq!(actions[1], Action::Abort(StartupError::UnexpectedEvent));
    assert_eq!(actions[2], Action::Abort(StartupError::UnexpectedEvent));
}

#[test]
fn phases_of_a_query_start_up() {
    let options = Options::from(Http { port: 8080 })
        .query_sql(Query, sql_store())
        .submit(Submit);
    let mut startup = options.serve();
    let mut phases = vec![startup.phase()];
    for event in [
        Event::DataSourceCreated,
        Event::HandleAcquired { node_index: 11 },
        Event::EventStreamSubscribed,
        Event::ModuleRegistered,
        Event::ModuleRegistered,
        Event::ServerSpawned,
        Event::ConsensusStarted,
    ] {
        startup = startup.advance(event).0;
        phases.push(startup.phase());
    }
    assert_eq!(
        phases,
        vec![
            Phase::Configured,
            Phase::DataSourceReady,
            Phase::ConsensusHandleAcquired,
            Phase::EventStreamSubscribed,
            Phase::EventStreamSubscribed,
            Phase::ModulesRegistered,
            Phase::ServerSpawned,
            Phase::Running,
        ]
    );
    assert_eq!(startup.pending(), Action::Finish(ServerResult { node_index: 11 }));
}

#[test]
fn phases_of_a_status_start_up() {
    let options = Options::from(Http { port: 9000 }).status(Status).submit(Submit);
    let mut startup = options.serve();
    let mut phases = vec![startup.phase()];
    for event in [
        Event::DataSourceCreated,
        Event::HandleAcquired { node_index: 11 },
        Event::ModuleRegistered,
        Event::ModuleRegistered,
        Event::ServerSpawned,
        Event::ConsensusStarted,
    ] {
        startup = startup.advance(event).0;
        phases.push(startup.phase());
    }
    assert_eq!(
        phases,
        vec![
            Phase::Configured,
            Phase::DataSourceReady,
            Phase::ConsensusHandleAcquired,
            Phase::ConsensusHandleAcquired,
            Phase::ModulesRegistered,
            Phase::ServerSpawned,
            Phase::Running,
        ]
    );
}

#[test]
fn phases_of_a_bare_start_up() {
    let mut startup = Options::from(Http { port: 8080 }).serve();
    let mut phases = vec![startup.phase()];
    for event in
        [Event::HandleAcquired { node_index: 0 }, Event::ServerSpawned, Event::ConsensusStarted]
    {
        startup = startup.advance(event).0;
        phases.push(startup.phase());
    }
    assert_eq!(
        phases,
        vec![
            Phase::DataSourceReady,
            Phase::ModulesRegistered,
            Phase::ServerSpawned,
            Phase::Running,
        ]
    );
}

#[test]
fn events_after_the_end_change_nothing() {
    let options = Options::from(Http { port: 8080 });
    let (mut startup, _) = feed(
        options,
        &[Event::HandleAcquired { node_index: 8 }, Event::ServerSpawned, Event::ConsensusStarted],
    );
    for event in every_event() {
        let (next, action) = startup.advance(event);
        assert_eq!(action, Action::Finish(ServerResult { node_index: 8 }));
        assert_eq!(next.phase(), Phase::Running);
        startup = next;
    }
}

#[test]
fn advance_returns_the_pending_action() {
    for options in every_options() {
        for first in every_event() {
            for second in every_event() {
                let startup = options.clone().serve();
                let (startup, action) = startup.advance(first);
                assert_eq!(action, startup.pending());
                let (startup, action) = startup.advance(second);
                assert_eq!(action, startup.pending());
            }
        }
    }
}

#[test]
fn result_carries_the_reported_node_index() {
    for options in every_options() {
        for node_index in [0, 1, 7, u64::MAX] {
            let mut recorder = Recorder::new(node_index);
            assert_eq!(recorder.run(options.clone()), Ok(ServerResult { node_index }));
            assert_eq!(recorder.calls, options.plan());
        }
    }
}

#[test]
fn serve_keeps_the_options() {
    let options = Options::from(Http { port: 8080 })
        .query_sql(Query, sql_store())
        .query_fs(Query, fs_store("/tmp/x"))
        .status(Status);
    let startup = options.clone().serve();
    assert_eq!(*startup.options(), options);
    let (startup, _) = startup.advance(Event::DataSourceCreated);
    assert_eq!(*startup.options(), options);
}

#[test]
fn outcome_of_every_step_and_event() {
    let steps = [
        Step::CreateDataSource(Backend::Sql),
        Step::CreateDataSource(Backend::FileSystem),
        Step::CreateDataSource(Backend::MetricsOnly),
        Step::AcquireHandle(MetricsSink::DataSource),
        Step::AcquireHandle(MetricsSink::NoOp),
        Step::SubscribeEvents,
        Step::RegisterModule(Module::Submit),
        Step::RegisterModule(Module::Status),
        Step::RegisterModule(Module::Availability),
        Step::SpawnServer { port: 8080, update_loop: true },
        Step::StartConsensus,
    ];
    for step in steps {
        for event in every_event() {
            let expected = match (step, event) {
                (Step::CreateDataSource(_), Event::DataSourceCreated) => Ok(()),
                (Step::CreateDataSource(_), Event::DataSourceFailed) => {
                    Err(StartupError::StorageInit)
                }
                (Step::AcquireHandle(_), Event::HandleAcquired { .. }) => Ok(()),
                (Step::SubscribeEvents, Event::EventStreamSubscribed) => Ok(()),
                (Step::RegisterModule(_), Event::ModuleRegistered) => Ok(()),
                (Step::RegisterModule(module), Event::ModuleRejected) => {
                    Err(StartupError::ModuleRegistration(module))
                }
                (Step::SpawnServer { .. }, Event::ServerSpawned) => Ok(()),
                (Step::StartConsensus, Event::ConsensusStarted) => Ok(()),
                _ => Err(StartupError::UnexpectedEvent),
            };
            assert_eq!(step.outcome(event), expected);
        }
    }
}

fn order(phase: Phase) -> u8 {
    match phase {
        Phase::Configured => 0,
        Phase::DataSourceReady => 1,
        Phase::ConsensusHandleAcquired => 2,
        Phase::EventStreamSubscribed => 3,
        Phase::ModulesRegistered => 4,
        Phase::ServerSpawned => 5,
        Phase::Running => 6,
        Phase::Aborted => 7,
    }
}

#[test]
fn no_sequence_of_events_starts_consensus_before_the_subscription() {
    for options in every_options() {
        let query = options.topology().is_query();
        walk(options, Vec::new(), 4, query);
    }
}

fn walk(options: Options, events: Vec<Event>, depth: u32, query: bool) {
    let (startup, actions) = feed(options.clone(), &events);
    let last = actions.len() - 1;
    if actions[last] == Action::Perform(Step::StartConsensus) && query {
        let subscribed = (0..last).any(|j| {
            actions[j] == Action::Perform(Step::SubscribeEvents)
                && events[j] == Event::EventStreamSubscribed
        });
        assert!(subscribed);
    }
    if !query {
        assert!(actions[last] != Action::Perform(Step::SubscribeEvents));
    }
    if last > 0 {
        assert!(order(startup.phase()) >= order(feed(options.clone(), &events[..last - 1]).0.phase()));
    }
    if depth == 0 {
        return;
    }
    for event in every_event() {
        let mut longer = events.clone();
        longer.push(event);
        walk(options.clone(), longer, depth - 1, query);
    }
}

#[test]
fn successful_runs_start_consensus_after_the_subscription() {
    for options in every_options() {
        let mut recorder = Recorder::new(1);
        assert!(recorder.run(options.clone()).is_ok());
        let started = recorder.place_of(Step::StartConsensus).unwrap();
        assert_eq!(started, recorder.calls.len() - 1);
        match recorder.place_of(Step::SubscribeEvents) {
            Some(subscribed) => {
                assert!(options.topology().is_query());
                assert!(subscribed < started);
                assert_eq!(recorder.calls[subscribed - 1], Step::AcquireHandle(MetricsSink::DataSource));
            }
            None => assert!(!options.topology().is_query()),
        }
    }
}
