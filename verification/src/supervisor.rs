//! The process supervisor: which duplication comes next, which index the
//! duplicate gets, and what the parent process does once every
//! duplication has been tried.
//!
//! The supervisor decides and never acts. Its state names one pending
//! [`Action`]; whoever drives it performs that action and reports what
//! came of it as an [`Event`].

use vstd::prelude::*;

verus! {

/// Where a process stands in the supervision protocol.
#[derive(Clone, Copy, Debug, PartialEq, Eq, Structural)]
pub enum Phase {
    /// The next duplication is due.
    Spawning,
    /// The last duplication failed and has to be made known.
    Diagnosing,
    /// Every duplication has been tried; the end of the duplication phase
    /// has to be made known.
    Reporting,
    /// The parent process has nothing left to do but to stay alive while
    /// workers run, or to exit cleanly.
    Supervising,
    /// This process is the duplicate with the given index.
    Worker(u32),
    /// Nothing is left to do in this process.
    Finished,
}

/// What the driver is asked to do next.
#[derive(Clone, Copy, Debug, PartialEq, Eq, Structural)]
pub enum Action {
    /// Duplicate the process; the duplicate is the worker with this index.
    Spawn(u32),
    /// Make known that the duplication for this index failed.
    Diagnose(u32),
    /// Make known that the duplication phase is over, with the number of
    /// workers that were started and the number of duplications that failed.
    ReportStarted { started: u32, failed: u32 },
    /// Wait until a worker exits, or exit cleanly; serve no request.
    Supervise,
    /// Run the initialization callback as the worker with this index. The
    /// callback owns the process from here on.
    RunWorker(u32),
    /// Nothing: the process has reached the end of the protocol.
    Stop,
}

/// What came of the pending action.
#[derive(Clone, Copy, Debug, PartialEq, Eq, Structural)]
pub enum Event {
    /// The duplication succeeded and this is the parent process.
    Spawned,
    /// The duplication succeeded and this is the duplicate.
    Child,
    /// The duplication failed.
    SpawnFailed,
    /// A worker has exited.
    ChildExited,
    /// The pending action, other than a duplication, has been carried out.
    Done,
}

/// The supervisor's state as plain values.
pub struct SupervisorState {
    /// The number of workers asked for.
    pub workers: u32,
    /// The number of duplications dealt with so far, which is also the
    /// index of the next one.
    pub next: u32,
    /// How many of them failed.
    pub failed: u32,
    /// The number of workers that were started by this process and have
    /// not exited.
    pub running: u32,
    pub phase: Phase,
}

impl SupervisorState {
    /// The state before the first duplication.
    pub open spec fn init(workers: u32) -> SupervisorState {
        SupervisorState {
            workers,
            next: 0,
            failed: 0,
            running: 0,
            phase: if workers == 0 {
                Phase::Reporting
            } else {
                Phase::Spawning
            },
        }
    }

    /// The counters fit each other and the phase.
    pub open spec fn wf(self) -> bool {
        &&& self.next <= self.workers
        &&& self.failed <= self.next
        &&& self.running <= self.next - self.failed
        &&& (self.phase is Spawning || self.phase is Diagnosing) ==> self.next < self.workers
        &&& (self.phase is Reporting || self.phase is Supervising) ==> self.next == self.workers
        &&& self.phase matches Phase::Worker(index) ==> index == self.next && self.next
            < self.workers
    }

    /// The action that the state asks for.
    pub open spec fn pending(self) -> Action {
        match self.phase {
            Phase::Spawning => Action::Spawn(self.next),
            Phase::Diagnosing => Action::Diagnose(self.next),
            Phase::Reporting => Action::ReportStarted {
                started: (self.next - self.failed) as u32,
                failed: self.failed,
            },
            Phase::Supervising => if self.running > 0 {
                Action::Supervise
            } else {
                Action::Stop
            },
            Phase::Worker(index) => Action::RunWorker(index),
            Phase::Finished => Action::Stop,
        }
    }

    /// Whether this is the parent process, which has workers to lose.
    pub open spec fn is_parent(self) -> bool {
        !(self.phase is Worker) && !(self.phase is Finished)
    }

    /// The state once one more duplication has been dealt with, `failures`
    /// of them, none or one, without success.
    pub open spec fn proceed(self, failures: int) -> SupervisorState {
        SupervisorState {
            next: (self.next + 1) as u32,
            failed: (self.failed + failures) as u32,
            running: (self.running + 1 - failures) as u32,
            phase: if self.next + 1 < self.workers {
                Phase::Spawning
            } else {
                Phase::Reporting
            },
            ..self
        }
    }

    /// The state after an event. An event that does not answer the pending
    /// action changes nothing.
    pub open spec fn advance(self, event: Event) -> SupervisorState {
        match (self.phase, event) {
            (_, Event::ChildExited) => if self.is_parent() && self.running > 0 {
                SupervisorState { running: (self.running - 1) as u32, ..self }
            } else {
                self
            },
            (Phase::Spawning, Event::Spawned) => self.proceed(0),
            (Phase::Spawning, Event::Child) => SupervisorState {
                phase: Phase::Worker(self.next),
                running: 0,
                ..self
            },
            (Phase::Spawning, Event::SpawnFailed) => SupervisorState {
                phase: Phase::Diagnosing,
                ..self
            },
            (Phase::Diagnosing, Event::Done) => self.proceed(1),
            (Phase::Reporting, Event::Done) => SupervisorState {
                phase: Phase::Supervising,
                ..self
            },
            (Phase::Supervising, Event::Done) => SupervisorState { phase: Phase::Finished, ..self },
            (Phase::Worker(_), Event::Done) => SupervisorState { phase: Phase::Finished, ..self },
            _ => self,
        }
    }

    /// The state of the parent process after the duplications whose
    /// results are listed, `true` for one that succeeded. A failed one has
    /// been made known before the next one starts.
    pub open spec fn after(workers: u32, results: Seq<bool>) -> SupervisorState
        decreases results.len(),
    {
        if results.len() == 0 {
            SupervisorState::init(workers)
        } else {
            let before = SupervisorState::after(workers, results.drop_last());
            if results.last() {
                before.advance(Event::Spawned)
            } else {
                before.advance(Event::SpawnFailed).advance(Event::Done)
            }
        }
    }

    /// The state after a run of events.
    pub open spec fn run(self, events: Seq<Event>) -> SupervisorState
        decreases events.len(),
    {
        if events.len() == 0 {
            self
        } else {
            self.run(events.drop_last()).advance(events.last())
        }
    }
}

/// The number of failed duplications among the listed results.
pub open spec fn failures(results: Seq<bool>) -> nat
    decreases results.len(),
{
    if results.len() == 0 {
        0
    } else {
        failures(results.drop_last()) + if results.last() {
            0nat
        } else {
            1nat
        }
    }
}

/// The supervisor of one process.
#[derive(Clone, Copy, Debug)]
pub struct Supervisor {
    workers: u32,
    next: u32,
    failed: u32,
    running: u32,
    phase: Phase,
}

impl View for Supervisor {
    type V = SupervisorState;

    closed spec fn view(&self) -> SupervisorState {
        SupervisorState {
            workers: self.workers,
            next: self.next,
            failed: self.failed,
            running: self.running,
            phase: self.phase,
        }
    }
}

impl Supervisor {
    #[verifier::type_invariant]
    spec fn inv(self) -> bool {
        self@.wf()
    }

    /// A supervisor that is to start `workers` workers.
    pub fn new(workers: u32) -> (r: Self)
        ensures
            r@ == SupervisorState::init(workers),
            r@.wf(),
    {
        Supervisor {
            workers,
            next: 0,
            failed: 0,
            running: 0,
            phase: if workers == 0 {
                Phase::Reporting
            } else {
                Phase::Spawning
            },
        }
    }

    /// The number of workers asked for.
    pub fn workers(&self) -> (n: u32)
        ensures
            n == self@.workers,
    {
        self.workers
    }

    /// The number of duplications dealt with so far.
    pub fn attempted(&self) -> (n: u32)
        ensures
            n == self@.next,
            n <= self@.workers,
    {
        proof {
            use_type_invariant(self);
        }
        self.next
    }

    /// The number of duplications that failed so far.
    pub fn failed(&self) -> (n: u32)
        ensures
            n == self@.failed,
            n <= self@.next,
    {
        proof {
            use_type_invariant(self);
        }
        self.failed
    }

    /// The number of workers started so far.
    pub fn started(&self) -> (n: u32)
        ensures
            n == self@.next - self@.failed,
    {
        proof {
            use_type_invariant(self);
        }
        self.next - self.failed
    }

    /// The number of workers that were started by this process and have
    /// not exited.
    pub fn running(&self) -> (n: u32)
        ensures
            n == self@.running,
            n <= self@.next - self@.failed,
    {
        proof {
            use_type_invariant(self);
        }
        self.running
    }

    /// Where this process stands.
    pub fn phase(&self) -> (p: Phase)
        ensures
            p == self@.phase,
    {
        self.phase
    }

    /// The index of the worker that this process is, if it is one.
    pub fn worker_index(&self) -> (r: Option<u32>)
        ensures
            r == (match self@.phase {
                Phase::Worker(index) => Some(index),
                _ => None::<u32>,
            }),
            r matches Some(index) ==> index < self@.workers,
    {
        proof {
            use_type_invariant(self);
        }
        match self.phase {
            Phase::Worker(index) => Some(index),
            _ => None,
        }
    }

    /// The action that is due.
    pub fn pending(&self) -> (action: Action)
        ensures
            action == self@.pending(),
            self@.wf(),
    {
        proof {
            use_type_invariant(self);
        }
        match self.phase {
            Phase::Spawning => Action::Spawn(self.next),
            Phase::Diagnosing => Action::Diagnose(self.next),
            Phase::Reporting => Action::ReportStarted {
                started: self.next - self.failed,
                failed: self.failed,
            },
            Phase::Supervising => if self.running > 0 {
                Action::Supervise
            } else {
                Action::Stop
            },
            Phase::Worker(index) => Action::RunWorker(index),
            Phase::Finished => Action::Stop,
        }
    }

    /// The supervisor in another phase, with this many workers running.
    fn in_phase(self, phase: Phase, running: u32) -> (r: Self)
        requires
            (SupervisorState { phase, running, ..self@ }).wf(),
        ensures
            r@ == (SupervisorState { phase, running, ..self@ }),
    {
        Supervisor {
            workers: self.workers,
            next: self.next,
            failed: self.failed,
            running,
            phase,
        }
    }

    /// The supervisor once one more duplication has been dealt with.
    fn proceed(self, failures: u32) -> (r: Self)
        requires
            self@.phase is Spawning || self@.phase is Diagnosing,
            failures <= 1,
            self@.phase is Spawning ==> failures == 0,
        ensures
            r@ == self@.proceed(failures as int),
    {
        proof {
            use_type_invariant(&self);
        }
        let next: u32 = self.next + 1;
        Supervisor {
            workers: self.workers,
            next,
            failed: self.failed + failures,
            running: self.running + 1 - failures,
            phase: if next < self.workers {
                Phase::Spawning
            } else {
                Phase::Reporting
            },
        }
    }

    /// Takes in what came of the pending action.
    pub fn advance(self, event: Event) -> (r: Self)
        ensures
            r@ == self@.advance(event),
            r@.wf(),
    {
        proof {
            use_type_invariant(&self);
        }
        match (self.phase, event) {
            (Phase::Worker(_), Event::ChildExited) => self,
            (Phase::Finished, Event::ChildExited) => self,
            (_, Event::ChildExited) => if self.running > 0 {
                Supervisor {
                    workers: self.workers,
                    next: self.next,
                    failed: self.failed,
                    running: self.running - 1,
                    phase: self.phase,
                }
            } else {
                self
            },
            (Phase::Spawning, Event::Spawned) => self.proceed(0),
            (Phase::Spawning, Event::Child) => self.in_phase(Phase::Worker(self.next), 0),
            (Phase::Spawning, Event::SpawnFailed) => self.in_phase(Phase::Diagnosing, self.running),
            (Phase::Diagnosing, Event::Done) => self.proceed(1),
            (Phase::Reporting, Event::Done) => self.in_phase(Phase::Supervising, self.running),
            (Phase::Supervising, Event::Done) => self.in_phase(Phase::Finished, self.running),
            (Phase::Worker(_), Event::Done) => self.in_phase(Phase::Finished, self.running),
            _ => self,
        }
    }

    /// Takes in an event and names the action that is due after it.
    pub fn step(self, event: Event) -> (r: (Self, Action))
        ensures
            r.0@ == self@.advance(event),
            r.1 == self@.advance(event).pending(),
            r.0@.wf(),
    {
        let next = self.advance(event);
        let action = next.pending();
        (next, action)
    }
}

/// No event leads out of a well-formed state into one that is not.
pub proof fn lemma_advance_keeps_wf(s: SupervisorState, event: Event)
    requires
        s.wf(),
    ensures
        s.advance(event).wf(),
        s.advance(event).workers == s.workers,
{
}

/// In the parent process the duplications come in the order of their
/// indices, each index below the worker count once: after `k` of them the
/// one with index `k` is due, and after all of them the report, which
/// counts every one of them as started or as failed.
pub proof fn lemma_spawn_order(workers: u32, results: Seq<bool>)
    requires
        results.len() <= workers,
    ensures
        SupervisorState::after(workers, results).wf(),
        SupervisorState::after(workers, results).workers == workers,
        SupervisorState::after(workers, results).next == results.len(),
        SupervisorState::after(workers, results).failed == failures(results),
        SupervisorState::after(workers, results).running == results.len() - failures(results),
        results.len() < workers ==> SupervisorState::after(workers, results).pending()
            == Action::Spawn(results.len() as u32),
        results.len() == workers ==> SupervisorState::after(workers, results).pending()
            == (Action::ReportStarted {
            started: (workers - failures(results)) as u32,
            failed: failures(results) as u32,
        }),
    decreases results.len(),
{
    if results.len() > 0 {
        lemma_spawn_order(workers, results.drop_last());
    }
}

/// The duplicate that the `k`-th duplication makes is the worker with
/// index `k`, whatever came of the duplications before it, and `k` is
/// below the worker count: no two workers share an index.
pub proof fn lemma_worker_index(workers: u32, results: Seq<bool>)
    requires
        results.len() < workers,
    ensures
        SupervisorState::after(workers, results).advance(Event::Child).pending()
            == Action::RunWorker(results.len() as u32),
{
    lemma_spawn_order(workers, results);
}

/// A process that is a worker, or has reached the end of the protocol,
/// never duplicates itself, whatever events it is given, and a worker
/// keeps its index.
pub proof fn lemma_worker_never_spawns(s: SupervisorState, events: Seq<Event>)
    requires
        s.phase is Worker || s.phase is Finished,
    ensures
        s.run(events).phase == s.phase || s.run(events).phase is Finished,
        !(s.run(events).pending() is Spawn),
    decreases events.len(),
{
    if events.len() > 0 {
        lemma_worker_never_spawns(s, events.drop_last());
    }
}

/// Whatever events a supervisor is given, it never asks for more
/// duplications than workers were asked for: the index of a duplication
/// that is due is below the worker count.
pub proof fn lemma_spawn_bounded(workers: u32, events: Seq<Event>)
    ensures
        SupervisorState::init(workers).run(events).wf(),
        SupervisorState::init(workers).run(events).workers == workers,
        SupervisorState::init(workers).run(events).pending() matches Action::Spawn(index)
            ==> index < workers,
    decreases events.len(),
{
    if events.len() > 0 {
        lemma_spawn_bounded(workers, events.drop_last());
        lemma_advance_keeps_wf(
            SupervisorState::init(workers).run(events.drop_last()),
            events.last(),
        );
    }
}

/// The state after this many workers have exited.
pub open spec fn after_exits(s: SupervisorState, exits: nat) -> SupervisorState
    decreases exits,
{
    if exits == 0 {
        s
    } else {
        after_exits(s, (exits - 1) as nat).advance(Event::ChildExited)
    }
}

/// A parent process that supervises waits while a worker of its own
/// runs, and has reached the end once the last of them has exited: after
/// fewer exits than workers were running it still waits, after as many it
/// stops. Meanwhile it duplicates nothing.
pub proof fn lemma_supervision_ends(s: SupervisorState, exits: nat)
    requires
        s.wf(),
        s.phase is Supervising,
        exits <= s.running,
    ensures
        after_exits(s, exits).wf(),
        after_exits(s, exits).phase is Supervising,
        after_exits(s, exits).running == s.running - exits,
        exits < s.running ==> after_exits(s, exits).pending() == Action::Supervise,
        exits == s.running ==> after_exits(s, exits).pending() == Action::Stop,
    decreases exits,
{
    if exits > 0 {
        lemma_supervision_ends(s, (exits - 1) as nat);
    }
}

} // verus!
