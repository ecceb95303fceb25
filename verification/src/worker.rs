//! The worker runtime: what one process does between getting the
//! listening socket and its exit.
//!
//! Like the supervisor, the runtime decides and never acts: its state
//! names one pending [`WorkerAction`], and the driver reports what came
//! of it as a [`WorkerEvent`]. Each process has a runtime of its own, so
//! nothing that happens to one worker reaches another.

use vstd::prelude::*;

verus! {

/// The status with which a process exits.
#[derive(Clone, Copy, Debug, PartialEq, Eq, Structural)]
pub enum ExitStatus {
    Success,
    Failure,
}

/// What kept a worker from serving.
#[derive(Clone, Copy, Debug, PartialEq, Eq, Structural)]
pub enum Setback {
    /// The task scheduler could not be built.
    Scheduler,
    /// The application state could not be built: the datastore could not
    /// be reached.
    State,
    /// The service loop could not be started, or ended with an error.
    Serve,
}

impl Setback {
    /// The exit status after a setback. A worker that could not get its
    /// scheduler or its state exits with failure. A worker that got as far
    /// as the service loop exits with success, also where the loop could
    /// not be started or ended with an error: that is made known, and is
    /// no failure of the worker's startup.
    pub open spec fn status(self) -> ExitStatus {
        match self {
            Setback::Scheduler => ExitStatus::Failure,
            Setback::State => ExitStatus::Failure,
            Setback::Serve => ExitStatus::Success,
        }
    }

    /// The exit status after the setback.
    pub fn exit_status(&self) -> (status: ExitStatus)
        ensures
            status == self.status(),
    {
        match self {
            Setback::Scheduler => ExitStatus::Failure,
            Setback::State => ExitStatus::Failure,
            Setback::Serve => ExitStatus::Success,
        }
    }
}

/// Where a worker stands.
#[derive(Clone, Copy, Debug, PartialEq, Eq, Structural)]
pub enum WorkerPhase {
    /// The task scheduler is to be built.
    Starting,
    /// The application state is to be resolved.
    Resolving,
    /// The service loop is to run.
    Serving,
    /// A setback is to be made known.
    Failing(Setback),
    /// The process is to exit.
    Exiting(ExitStatus),
}

/// What the driver of a worker is asked to do next.
#[derive(Clone, Copy, Debug, PartialEq, Eq, Structural)]
pub enum WorkerAction {
    /// Build the task scheduler of this process.
    BuildScheduler,
    /// Build the application state of this process, or take the one that
    /// was supplied.
    ResolveState,
    /// Accept and serve on the listening socket until the loop ends.
    Serve,
    /// Make the setback known.
    Diagnose(Setback),
    /// Exit with this status.
    Exit(ExitStatus),
}

/// What came of the pending action.
#[derive(Clone, Copy, Debug, PartialEq, Eq, Structural)]
pub enum WorkerEvent {
    /// The action was carried out; for the service loop, it ended normally.
    Done,
    /// The action failed.
    Failed,
}

impl WorkerPhase {
    /// The action that the phase asks for.
    pub open spec fn pending(self) -> WorkerAction {
        match self {
            WorkerPhase::Starting => WorkerAction::BuildScheduler,
            WorkerPhase::Resolving => WorkerAction::ResolveState,
            WorkerPhase::Serving => WorkerAction::Serve,
            WorkerPhase::Failing(setback) => WorkerAction::Diagnose(setback),
            WorkerPhase::Exiting(status) => WorkerAction::Exit(status),
        }
    }

    /// The phase after an event.
    pub open spec fn advance(self, event: WorkerEvent) -> WorkerPhase {
        match (self, event) {
            (WorkerPhase::Starting, WorkerEvent::Done) => WorkerPhase::Resolving,
            (WorkerPhase::Starting, WorkerEvent::Failed) => WorkerPhase::Failing(
                Setback::Scheduler,
            ),
            (WorkerPhase::Resolving, WorkerEvent::Done) => WorkerPhase::Serving,
            (WorkerPhase::Resolving, WorkerEvent::Failed) => WorkerPhase::Failing(Setback::State),
            (WorkerPhase::Serving, WorkerEvent::Done) => WorkerPhase::Exiting(ExitStatus::Success),
            (WorkerPhase::Serving, WorkerEvent::Failed) => WorkerPhase::Failing(Setback::Serve),
            (WorkerPhase::Failing(setback), _) => WorkerPhase::Exiting(setback.status()),
            (WorkerPhase::Exiting(status), _) => WorkerPhase::Exiting(status),
        }
    }

    /// The phase after a run of events.
    pub open spec fn run(self, events: Seq<WorkerEvent>) -> WorkerPhase
        decreases events.len(),
    {
        if events.len() == 0 {
            self
        } else {
            self.run(events.drop_last()).advance(events.last())
        }
    }

    /// Whether the worker has given up before the service loop: a setback
    /// of its startup is to be made known, or it is to exit with failure.
    pub open spec fn failed_to_start(self) -> bool {
        self == WorkerPhase::Failing(Setback::Scheduler) || self == WorkerPhase::Failing(
            Setback::State,
        ) || self == WorkerPhase::Exiting(ExitStatus::Failure)
    }

    /// Whether the service loop has been reached: it is running or is over.
    pub open spec fn reached_serving(self) -> bool {
        self == WorkerPhase::Serving || self == WorkerPhase::Failing(Setback::Serve) || self
            == WorkerPhase::Exiting(ExitStatus::Success)
    }
}

/// The runtime of one worker process.
#[derive(Clone, Copy, Debug)]
pub struct WorkerRuntime {
    pub phase: WorkerPhase,
}

impl WorkerRuntime {
    /// The runtime of a worker that has just received the listening socket.
    pub fn new() -> (r: Self)
        ensures
            r.phase == WorkerPhase::Starting,
    {
        WorkerRuntime { phase: WorkerPhase::Starting }
    }

    /// The action that is due.
    pub fn pending(&self) -> (action: WorkerAction)
        ensures
            action == self.phase.pending(),
    {
        match self.phase {
            WorkerPhase::Starting => WorkerAction::BuildScheduler,
            WorkerPhase::Resolving => WorkerAction::ResolveState,
            WorkerPhase::Serving => WorkerAction::Serve,
            WorkerPhase::Failing(setback) => WorkerAction::Diagnose(setback),
            WorkerPhase::Exiting(status) => WorkerAction::Exit(status),
        }
    }

    /// Takes in what came of the pending action.
    pub fn advance(self, event: WorkerEvent) -> (r: Self)
        ensures
            r.phase == self.phase.advance(event),
    {
        let phase = match (self.phase, event) {
            (WorkerPhase::Starting, WorkerEvent::Done) => WorkerPhase::Resolving,
            (WorkerPhase::Starting, WorkerEvent::Failed) => WorkerPhase::Failing(
                Setback::Scheduler,
            ),
            (WorkerPhase::Resolving, WorkerEvent::Done) => WorkerPhase::Serving,
            (WorkerPhase::Resolving, WorkerEvent::Failed) => WorkerPhase::Failing(Setback::State),
            (WorkerPhase::Serving, WorkerEvent::Done) => WorkerPhase::Exiting(ExitStatus::Success),
            (WorkerPhase::Serving, WorkerEvent::Failed) => WorkerPhase::Failing(Setback::Serve),
            (WorkerPhase::Failing(setback), _) => WorkerPhase::Exiting(setback.exit_status()),
            (WorkerPhase::Exiting(status), _) => WorkerPhase::Exiting(status),
        };
        WorkerRuntime { phase }
    }

    /// Takes in an event and names the action that is due after it.
    pub fn step(self, event: WorkerEvent) -> (r: (Self, WorkerAction))
        ensures
            r.0.phase == self.phase.advance(event),
            r.1 == self.phase.advance(event).pending(),
    {
        let next = self.advance(event);
        let action = next.pending();
        (next, action)
    }

    /// The status with which the process is to exit, once it is.
    pub fn exit_status(&self) -> (r: Option<ExitStatus>)
        ensures
            r == (match self.phase {
                WorkerPhase::Exiting(status) => Some(status),
                _ => None::<ExitStatus>,
            }),
    {
        match self.phase {
            WorkerPhase::Exiting(status) => Some(status),
            _ => None,
        }
    }
}

/// The phase after one more event is the phase after the events before
/// it, advanced by that event.
proof fn lemma_run_push(phase: WorkerPhase, events: Seq<WorkerEvent>, event: WorkerEvent)
    ensures
        phase.run(events.push(event)) == phase.run(events).advance(event),
{
    assert(events.push(event).drop_last() =~= events);
}

/// A worker whose scheduler or state could not be had never serves: it
/// makes the setback known and exits with failure, whatever it is told
/// afterwards.
pub proof fn lemma_startup_failure_is_fatal(events: Seq<WorkerEvent>)
    requires
        events.len() >= 1,
        events[0] == WorkerEvent::Failed || (events.len() >= 2 && events[1] == WorkerEvent::Failed),
    ensures
        WorkerPhase::Starting.run(events).failed_to_start(),
        !WorkerPhase::Starting.run(events).reached_serving(),
        !(WorkerPhase::Starting.run(events).pending() is Serve),
        events.len() >= 3 ==> WorkerPhase::Starting.run(events) == WorkerPhase::Exiting(
            ExitStatus::Failure,
        ),
    decreases events.len(),
{
    let before = events.drop_last();
    assert(events =~= before.push(events.last()));
    lemma_run_push(WorkerPhase::Starting, before, events.last());
    if before.len() == 0 {
    } else if before[0] == WorkerEvent::Failed || before.len() >= 2 {
        lemma_startup_failure_is_fatal(before);
    } else {
        assert(before =~= Seq::<WorkerEvent>::empty().push(before[0]));
        lemma_run_push(WorkerPhase::Starting, Seq::<WorkerEvent>::empty(), before[0]);
    }
}

/// A worker whose scheduler and state are there reaches the service
/// loop, and once it has, it exits with success, however the loop ends.
pub proof fn lemma_started_worker_serves(events: Seq<WorkerEvent>)
    requires
        events.len() >= 2,
        events[0] == WorkerEvent::Done,
        events[1] == WorkerEvent::Done,
    ensures
        WorkerPhase::Starting.run(events).reached_serving(),
        events.len() == 2 ==> WorkerPhase::Starting.run(events) == WorkerPhase::Serving,
        events.len() >= 3 ==> !(WorkerPhase::Starting.run(events).pending() is Serve),
        events.len() >= 4 ==> WorkerPhase::Starting.run(events) == WorkerPhase::Exiting(
            ExitStatus::Success,
        ),
    decreases events.len(),
{
    let before = events.drop_last();
    assert(events =~= before.push(events.last()));
    lemma_run_push(WorkerPhase::Starting, before, events.last());
    if before.len() >= 2 {
        lemma_started_worker_serves(before);
    } else {
        let empty = Seq::<WorkerEvent>::empty();
        assert(before =~= empty.push(events[0]));
        lemma_run_push(WorkerPhase::Starting, empty, events[0]);
    }
}

} // verus!
