//! What holds of every start-up, whatever the caller reports.
//!
//! A start-up is followed here as a whole: [`after`] is the state that a
//! sequence of reported events leads to, and [`trace`] lists the actions that
//! the caller was given on the way. The laws below are stated over all
//! options and all sequences of events.

use crate::api::options::Options;
use crate::api::plan::{prologue, Backend, MetricsSink, Step};
use crate::api::startup::{Action, Event, Phase, Progress, ServerResult, StartupError};
use crate::api::topology::{Module, Topology};
use vstd::prelude::*;

verus! {

/// The state of a start-up on `options` once the caller has reported
/// `events`, one after the other.
pub open spec fn after(options: Options, events: Seq<Event>) -> Progress
    decreases events.len(),
{
    if events.len() == 0 {
        Progress::start(options)
    } else {
        after(options, events.drop_last()).advance(events.last())
    }
}

/// The actions that the caller is given: in place `i`, the one that is
/// pending when the first `i` events have been reported. So the event in
/// place `i` is the answer to the action in place `i`.
pub open spec fn trace(options: Options, events: Seq<Event>) -> Seq<Action> {
    Seq::new((events.len() + 1) as nat, |i: int| after(options, events.take(i)).pending())
}

/// The event in place `j` reports step `k` of the plan done: that step is
/// pending when the event comes, and the event is the one that completes it.
pub open spec fn completes(options: Options, events: Seq<Event>, j: int, k: int) -> bool {
    &&& 0 <= j < events.len()
    &&& 0 <= k < options.spec_plan().len()
    &&& after(options, events.take(j)).failure.is_none()
    &&& after(options, events.take(j)).done == k
    &&& options.spec_plan()[k].spec_outcome(events[j]).is_ok()
}

/// The place of a phase in the order in which a start-up passes through
/// the phases. A start-up can be given up from any phase before the last.
pub open spec fn rank(phase: Phase) -> nat {
    match phase {
        Phase::Configured => 0,
        Phase::DataSourceReady => 1,
        Phase::ConsensusHandleAcquired => 2,
        Phase::EventStreamSubscribed => 3,
        Phase::ModulesRegistered => 4,
        Phase::ServerSpawned => 5,
        Phase::Running => 6,
        Phase::Aborted => 7,
    }
}

/// One more event: the state after `i + 1` events is the state after `i`
/// events, advanced by the event in place `i`.
pub proof fn lemma_one_more(options: Options, events: Seq<Event>, i: int)
    requires
        0 <= i < events.len(),
    ensures
        after(options, events.take(i + 1)) == after(options, events.take(i)).advance(events[i]),
{
    let longer = events.take(i + 1);
    assert(longer.drop_last() =~= events.take(i));
    assert(longer.last() == events[i]);
}

/// A start-up keeps its options and does no more than its plan holds. Until
/// it is over, every event has completed one step. Once the handle is
/// acquired, the index of the node is known.
pub proof fn lemma_bounds(options: Options, events: Seq<Event>)
    ensures
        after(options, events).options == options,
        after(options, events).done <= options.spec_plan().len(),
        after(options, events).done <= events.len(),
        !after(options, events).over() ==> after(options, events).done == events.len(),
        after(options, events).done > options.handle_position() ==> after(
            options,
            events,
        ).node_index.is_some(),
    decreases events.len(),
{
    options.lemma_plan_shape();
    if events.len() > 0 {
        lemma_bounds(options, events.drop_last());
    }
}

/// A start-up that has failed stays as it is.
pub proof fn lemma_failure_stays(options: Options, events: Seq<Event>, j: int, i: int)
    requires
        0 <= j <= i <= events.len(),
        after(options, events.take(j)).failure.is_some(),
    ensures
        after(options, events.take(i)) == after(options, events.take(j)),
    decreases i - j,
{
    if j < i {
        lemma_failure_stays(options, events, j, i - 1);
        lemma_one_more(options, events, i - 1);
    }
}

/// The number of steps done does not go down.
pub proof fn lemma_done_grows(options: Options, events: Seq<Event>, j: int, i: int)
    requires
        0 <= j <= i <= events.len(),
    ensures
        after(options, events.take(j)).done <= after(options, events.take(i)).done,
    decreases i - j,
{
    if j < i {
        lemma_done_grows(options, events, j, i - 1);
        lemma_one_more(options, events, i - 1);
    }
}

/// Every step that is done was reported done by some event.
pub proof fn lemma_done_was_reported(options: Options, events: Seq<Event>, k: int)
    requires
        0 <= k < after(options, events).done,
    ensures
        exists|j: int| completes(options, events, j, k),
    decreases events.len(),
{
    lemma_bounds(options, events);
    if events.len() > 0 {
        let shorter = events.drop_last();
        let before = after(options, shorter);
        lemma_bounds(options, shorter);
        if k < before.done {
            lemma_done_was_reported(options, shorter, k);
            let j = choose|j: int| completes(options, shorter, j, k);
            assert(shorter.take(j) =~= events.take(j));
            assert(completes(options, events, j, k));
        } else {
            let j = events.len() - 1;
            assert(events.take(j) =~= shorter);
            assert(completes(options, events, j, k));
        }
    }
}

/// What is reported within the first `i` events is reported within all of
/// them.
pub proof fn lemma_completes_in_prefix(
    options: Options,
    events: Seq<Event>,
    i: int,
    j: int,
    k: int,
)
    requires
        0 <= i <= events.len(),
        completes(options, events.take(i), j, k),
    ensures
        completes(options, events, j, k),
        j < i,
        trace(options, events)[j] == Action::Perform(options.spec_plan()[k]),
{
    assert(events.take(i).take(j) =~= events.take(j));
    lemma_bounds(options, events.take(j));
}

/// Selecting the topology is a function of the options: the same options
/// select the same topology, every time.
pub proof fn topology_is_deterministic(a: Options, b: Options)
    requires
        a == b,
    ensures
        a.spec_topology() == b.spec_topology(),
{
}

/// The topology depends on no more than which kinds of storage are set and
/// whether the status module is: two sets of options that agree in this
/// select the same topology.
pub proof fn topology_depends_on_presence(a: Options, b: Options)
    requires
        a.storage_sql.is_some() == b.storage_sql.is_some(),
        a.storage_fs.is_some() == b.storage_fs.is_some(),
        a.status.is_some() == b.status.is_some(),
    ensures
        a.spec_topology() == b.spec_topology(),
{
}

/// Where both kinds of storage are set, the database takes priority: the
/// topology is the one over the database, and the data source is created
/// from the database.
pub proof fn sql_takes_priority(options: Options)
    requires
        options.storage_sql.is_some(),
        options.storage_fs.is_some(),
    ensures
        options.spec_topology() == Topology::QuerySql,
        trace(options, Seq::empty())[0] == Action::Perform(Step::CreateDataSource(Backend::Sql)),
{
    options.lemma_plan_shape();
    assert(Seq::<Event>::empty().take(0) =~= Seq::<Event>::empty());
}

/// Work is handed out in the order of the plan, and a step only once every
/// step before it has been reported done.
///
/// Say that `done` steps are done when the first `i` events have been
/// reported. If the action in place `i` of the trace is a piece of work,
/// then it is step `done` of the plan; if it is to finish, then all of the
/// plan is done. Each step `k` before `done` stands in some earlier place `j`
/// of the trace, where the event in place `j` reports it done.
pub proof fn work_follows_the_plan(options: Options, events: Seq<Event>, i: int, k: int)
    requires
        0 <= i <= events.len(),
        0 <= k < after(options, events.take(i)).done,
    ensures
        after(options, events.take(i)).done <= options.spec_plan().len(),
        trace(options, events)[i] is Perform ==> after(options, events.take(i)).done
            < options.spec_plan().len() && trace(options, events)[i] == Action::Perform(
            options.spec_plan()[after(options, events.take(i)).done as int],
        ),
        trace(options, events)[i] is Finish ==> after(options, events.take(i)).done
            == options.spec_plan().len(),
        exists|j: int|
            0 <= j < i && #[trigger] trace(options, events)[j] == Action::Perform(
                options.spec_plan()[k],
            ) && options.spec_plan()[k].spec_outcome(events[j]).is_ok(),
{
    let upto = events.take(i);
    lemma_bounds(options, upto);
    lemma_done_was_reported(options, upto, k);
    let j = choose|j: int| completes(options, upto, j, k);
    lemma_completes_in_prefix(options, events, i, j, k);
    assert(upto[j] == events[j]);
}

/// The data source is created first of all, and from what the options
/// hold: from the database exactly if one is set, from the file system
/// exactly if that is the only storage, and without storage exactly if none
/// is set.
pub proof fn data_source_matches_storage(
    options: Options,
    events: Seq<Event>,
    i: int,
    backend: Backend,
)
    requires
        0 <= i <= events.len(),
        trace(options, events)[i] == Action::Perform(Step::CreateDataSource(backend)),
    ensures
        after(options, events.take(i)).done == 0,
        backend == Backend::Sql <==> options.storage_sql.is_some(),
        backend == Backend::FileSystem <==> options.storage_sql.is_none()
            && options.storage_fs.is_some(),
        backend == Backend::MetricsOnly <==> options.storage_sql.is_none()
            && options.storage_fs.is_none(),
        backend == Backend::MetricsOnly ==> options.status.is_some(),
{
    options.lemma_plan_shape();
    lemma_bounds(options, events.take(i));
}

/// No module is registered that was not asked for, and none before the
/// handle is acquired.
pub proof fn only_requested_modules_are_registered(
    options: Options,
    events: Seq<Event>,
    i: int,
    module: Module,
)
    requires
        0 <= i <= events.len(),
        trace(options, events)[i] == Action::Perform(Step::RegisterModule(module)),
    ensures
        module == Module::Submit ==> options.submit.is_some(),
        module == Module::Status ==> options.status.is_some(),
        module == Module::Availability ==> options.spec_topology().is_query(),
        exists|j: int|
            0 <= j < i && #[trigger] trace(options, events)[j] is Perform && trace(
                options,
                events,
            )[j]->Perform_0 is AcquireHandle && events[j] is HandleAcquired,
{
    options.lemma_plan_shape();
    options.modules_match_options();
    lemma_bounds(options, events.take(i));
    let done = after(options, events.take(i)).done as int;
    let first = prologue(options.spec_topology()).len() as int;
    assert(options.spec_plan()[done] == Step::RegisterModule(module));
    assert(options.spec_plan()[done] is RegisterModule);
    assert(options.spec_modules()[done - first] == module);
    assert(options.spec_modules().contains(module));
    work_follows_the_plan(options, events, i, options.handle_position());
    assert(options.spec_plan()[options.handle_position()] is AcquireHandle);
}

/// A start-up that ends in a result has registered every module that the
/// options ask for.
pub proof fn result_means_all_modules_registered(
    options: Options,
    events: Seq<Event>,
    i: int,
    module: Module,
)
    requires
        0 <= i <= events.len(),
        trace(options, events)[i] is Finish,
        options.spec_modules().contains(module),
    ensures
        exists|j: int|
            0 <= j < i && #[trigger] trace(options, events)[j] == Action::Perform(
                Step::RegisterModule(module),
            ) && events[j] == Event::ModuleRegistered,
{
    options.lemma_plan_shape();
    lemma_bounds(options, events.take(i));
    let place = choose|m: int|
        0 <= m < options.spec_modules().len() && options.spec_modules()[m] == module;
    let k = prologue(options.spec_topology()).len() + place;
    assert(options.spec_plan()[k] == Step::RegisterModule(module));
    work_follows_the_plan(options, events, i, k);
}

/// Consensus is started only once the server is spawned, on the port of
/// the options, and with the task that updates the data source exactly if
/// there is storage.
pub proof fn server_precedes_consensus(options: Options, events: Seq<Event>, i: int)
    requires
        0 <= i <= events.len(),
        trace(options, events)[i] == Action::Perform(Step::StartConsensus),
    ensures
        exists|j: int|
            0 <= j < i && #[trigger] trace(options, events)[j] == Action::Perform(
                Step::SpawnServer {
                    port: options.http.port,
                    update_loop: options.spec_topology().is_query(),
                },
            ) && events[j] == Event::ServerSpawned,
{
    options.lemma_plan_shape();
    lemma_bounds(options, events.take(i));
    let done = after(options, events.take(i)).done as int;
    assert(options.spec_plan()[done] is StartConsensus);
    work_follows_the_plan(options, events, i, options.spec_plan().len() - 2);
}

/// With storage, consensus is started only after the events of consensus
/// are subscribed to.
///
/// If the action in place `i` of the trace is to start consensus, then in
/// some earlier place `j` the action is to subscribe, and the event in place
/// `j` reports that the subscription stands.
pub proof fn subscription_precedes_consensus(options: Options, events: Seq<Event>, i: int)
    requires
        options.spec_topology().is_query(),
        0 <= i <= events.len(),
        trace(options, events)[i] == Action::Perform(Step::StartConsensus),
    ensures
        exists|j: int|
            0 <= j < i && #[trigger] trace(options, events)[j] == Action::Perform(
                Step::SubscribeEvents,
            ) && events[j] == Event::EventStreamSubscribed,
{
    options.lemma_plan_shape();
    let upto = events.take(i);
    lemma_bounds(options, upto);
    let done = after(options, upto).done as int;
    assert(options.spec_plan()[done] is StartConsensus);
    assert(options.spec_plan()[2] is SubscribeEvents);
    work_follows_the_plan(options, events, i, 2);
}

/// The task that updates the data source is spawned only with storage, and
/// only once the events that it is to consume are subscribed to. The server
/// is spawned on no other port than that of the options.
pub proof fn update_loop_follows_subscription(
    options: Options,
    events: Seq<Event>,
    i: int,
    port: u16,
    update_loop: bool,
)
    requires
        0 <= i <= events.len(),
        trace(options, events)[i] == Action::Perform(Step::SpawnServer { port, update_loop }),
    ensures
        port == options.http.port,
        update_loop == options.spec_topology().is_query(),
        update_loop ==> exists|j: int|
            0 <= j < i && #[trigger] trace(options, events)[j] == Action::Perform(
                Step::SubscribeEvents,
            ) && events[j] == Event::EventStreamSubscribed,
{
    options.lemma_plan_shape();
    lemma_bounds(options, events.take(i));
    let done = after(options, events.take(i)).done as int;
    assert(options.spec_plan()[done] is SpawnServer);
    if update_loop {
        assert(options.spec_plan()[2] is SubscribeEvents);
        work_follows_the_plan(options, events, i, 2);
    }
}

/// Without storage, no subscription to the events of consensus is ever
/// asked for.
pub proof fn no_subscription_without_storage(options: Options, events: Seq<Event>, i: int)
    requires
        !options.spec_topology().is_query(),
        0 <= i <= events.len(),
    ensures
        trace(options, events)[i] != Action::Perform(Step::SubscribeEvents),
{
    options.lemma_plan_shape();
    lemma_bounds(options, events.take(i));
}

/// A failure ends the start-up for good: once an event has failed the
/// pending step, every later action is to give up, with the error of that
/// failure. No further work is handed out, and no result.
pub proof fn failure_is_final(options: Options, events: Seq<Event>, j: int, i: int)
    requires
        0 <= j < i <= events.len(),
        trace(options, events)[j] is Perform,
        trace(options, events)[j]->Perform_0.spec_outcome(events[j]).is_err(),
    ensures
        trace(options, events)[i] == Action::Abort(
            trace(options, events)[j]->Perform_0.spec_outcome(events[j])->Err_0,
        ),
{
    lemma_bounds(options, events.take(j));
    lemma_one_more(options, events, j);
    lemma_failure_stays(options, events, j + 1, i);
}

/// If the data source cannot be created, nothing else happens: no handle is
/// acquired, no module is registered and consensus is not started, whatever
/// the caller reports afterwards.
///
/// If the action in place `j` of the trace is to create the data source and
/// the event in place `j` reports that this failed, then `j` is the first
/// place of the trace, and the action in every later place is to give up.
pub proof fn failed_storage_prevents_everything(
    options: Options,
    events: Seq<Event>,
    j: int,
    i: int,
)
    requires
        0 <= j < events.len(),
        trace(options, events)[j] matches Action::Perform(Step::CreateDataSource(_)),
        events[j] == Event::DataSourceFailed,
        0 <= i <= events.len(),
    ensures
        j == 0,
        i > 0 ==> trace(options, events)[i] == Action::Abort(StartupError::StorageInit),
        !(trace(options, events)[i] matches Action::Perform(Step::AcquireHandle(_))),
        !(trace(options, events)[i] matches Action::Perform(Step::RegisterModule(_))),
        trace(options, events)[i] != Action::Perform(Step::SubscribeEvents),
        trace(options, events)[i] != Action::Perform(Step::StartConsensus),
        !(trace(options, events)[i] is Finish),
{
    options.lemma_plan_shape();
    lemma_bounds(options, events.take(j));
    if i > j {
        failure_is_final(options, events, j, i);
    }
}

/// A start-up ends in a result only when all of its plan is done, and the
/// result carries the index of the node that came with the handle: if the
/// action in place `i` of the trace is to finish, then in some earlier place
/// `j` the action is to acquire the handle, and the event in place `j`
/// brings the index that the result holds.
pub proof fn result_carries_node_index(options: Options, events: Seq<Event>, i: int)
    requires
        0 <= i <= events.len(),
        trace(options, events)[i] is Finish,
    ensures
        after(options, events.take(i)).done == options.spec_plan().len(),
        exists|j: int|
            0 <= j < i && #[trigger] trace(options, events)[j] is Perform && trace(
                options,
                events,
            )[j]->Perform_0 is AcquireHandle && events[j] == (Event::HandleAcquired {
                node_index: trace(options, events)[i]->Finish_0.node_index,
            }),
{
    options.lemma_plan_shape();
    let upto = events.take(i);
    lemma_bounds(options, upto);
    let k = options.handle_position();
    lemma_done_was_reported(options, upto, k);
    let j = choose|j: int| completes(options, upto, j, k);
    lemma_completes_in_prefix(options, events, i, j, k);
    assert(upto[j] == events[j]);
    lemma_one_more(options, events, j);
    lemma_index_stays(options, events, j + 1, i);
}

/// Once the handle is acquired, the index of the node does not change.
pub proof fn lemma_index_stays(options: Options, events: Seq<Event>, j: int, i: int)
    requires
        0 <= j <= i <= events.len(),
        after(options, events.take(j)).done > options.handle_position(),
    ensures
        after(options, events.take(i)).node_index == after(options, events.take(j)).node_index,
    decreases i - j,
{
    if j < i {
        options.lemma_plan_shape();
        lemma_index_stays(options, events, j, i - 1);
        lemma_done_grows(options, events, j, i - 1);
        lemma_bounds(options, events.take(i - 1));
        lemma_one_more(options, events, i - 1);
    }
}

/// While every event reports the pending step done, each event completes
/// one step.
pub proof fn lemma_all_goes_well(options: Options, events: Seq<Event>, i: int)
    requires
        events.len() == options.spec_plan().len(),
        forall|k: int|
            #![trigger events[k]]
            0 <= k < events.len() ==> options.spec_plan()[k].spec_outcome(events[k]).is_ok(),
        0 <= i <= events.len(),
    ensures
        after(options, events.take(i)).done == i,
        after(options, events.take(i)).failure.is_none(),
        after(options, events.take(i)).options == options,
        i > options.handle_position() ==> after(options, events.take(i)).node_index == Some(
            events[options.handle_position()]->node_index,
        ),
    decreases i,
{
    options.lemma_plan_shape();
    if i > 0 {
        lemma_all_goes_well(options, events, i - 1);
        lemma_one_more(options, events, i - 1);
        assert(options.spec_plan()[i - 1].spec_outcome(events[i - 1]).is_ok());
    } else {
        assert(events.take(0) =~= Seq::<Event>::empty());
    }
}

/// A start-up in which every step succeeds goes through: if the caller
/// answers each step of the plan with an event that reports it done, it is
/// given the steps of the plan, one after the other, and then the result,
/// with the index of the node that came with the handle.
pub proof fn start_up_succeeds_if_every_step_does(options: Options, events: Seq<Event>)
    requires
        events.len() == options.spec_plan().len(),
        forall|k: int|
            #![trigger events[k]]
            0 <= k < events.len() ==> options.spec_plan()[k].spec_outcome(events[k]).is_ok(),
    ensures
        forall|k: int|
            0 <= k < events.len() ==> #[trigger] trace(options, events)[k] == Action::Perform(
                options.spec_plan()[k],
            ),
        trace(options, events)[events.len() as int] == Action::Finish(
            ServerResult { node_index: events[options.handle_position()]->node_index },
        ),
{
    options.lemma_plan_shape();
    assert forall|k: int| 0 <= k < events.len() implies #[trigger] trace(options, events)[k]
        == Action::Perform(options.spec_plan()[k]) by {
        lemma_all_goes_well(options, events, k);
    }
    lemma_all_goes_well(options, events, events.len() as int);
}

/// With no storage and neither the status nor the submit module asked for,
/// the server is the bare one: the topology is the minimal one, no module
/// is registered, and a start-up in which every step succeeds takes three
/// steps and ends in a result.
pub proof fn bare_options_register_nothing(options: Options, node_index: u64)
    requires
        options.storage_sql.is_none(),
        options.storage_fs.is_none(),
        options.status.is_none(),
        options.submit.is_none(),
    ensures
        options.spec_topology() == Topology::Minimal,
        options.spec_modules() == Seq::<Module>::empty(),
        trace(
            options,
            seq![
                Event::HandleAcquired { node_index },
                Event::ServerSpawned,
                Event::ConsensusStarted,
            ],
        ) == seq![
            Action::Perform(Step::AcquireHandle(MetricsSink::NoOp)),
            Action::Perform(Step::SpawnServer { port: options.http.port, update_loop: false }),
            Action::Perform(Step::StartConsensus),
            Action::Finish(ServerResult { node_index }),
        ],
{
    let events = seq![
        Event::HandleAcquired { node_index },
        Event::ServerSpawned,
        Event::ConsensusStarted,
    ];
    options.lemma_plan_shape();
    assert(options.spec_modules() =~= Seq::<Module>::empty());
    assert(events.take(0) =~= Seq::<Event>::empty());
    lemma_one_more(options, events, 0);
    lemma_one_more(options, events, 1);
    lemma_one_more(options, events, 2);
    assert(trace(options, events) =~= seq![
        Action::Perform(Step::AcquireHandle(MetricsSink::NoOp)),
        Action::Perform(Step::SpawnServer { port: options.http.port, update_loop: false }),
        Action::Perform(Step::StartConsensus),
        Action::Finish(ServerResult { node_index }),
    ]);
}

/// A start-up does not go back: an event leaves the phase as it is or moves
/// it to a later one, and a start-up that runs or is given up stays so.
pub proof fn phases_only_move_forward(options: Options, events: Seq<Event>, event: Event)
    ensures
        rank(after(options, events).phase()) <= rank(after(options, events.push(event)).phase()),
        after(options, events).phase() == Phase::Running ==> after(
            options,
            events.push(event),
        ).phase() == Phase::Running,
        after(options, events).phase() == Phase::Aborted ==> after(
            options,
            events.push(event),
        ).phase() == Phase::Aborted,
{
    options.lemma_plan_shape();
    lemma_bounds(options, events);
    let longer = events.push(event);
    assert(longer.drop_last() =~= events);
    assert(longer.last() == event);
    lemma_bounds(options, longer);
}

} // verus!
