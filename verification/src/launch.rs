//! The launch: the listening socket is bound once, before anything else,
//! and what follows depends on whether that worked and on the mode.

use crate::address::Address;
use crate::mode::Mode;
use crate::supervisor::Supervisor;
use crate::supervisor::SupervisorState;
use crate::worker::ExitStatus;
use vstd::prelude::*;

verus! {

/// Where the launch stands.
#[derive(Clone, Copy, Debug, PartialEq, Eq, Structural)]
pub enum LaunchPhase {
    /// The listening socket is to be bound.
    Binding,
    /// The socket could not be bound: nothing is started.
    Aborted,
    /// The socket is bound and the service runs in this mode.
    Launched(Mode),
}

/// What the driver of the launch is asked to do next.
#[derive(Clone, Copy, Debug, PartialEq, Eq, Structural)]
pub enum LaunchAction {
    /// Bind the listening socket to this address.
    Bind(Address),
    /// Give up and exit with failure: no worker is started.
    Abort,
    /// Run the worker runtime in this process, on the bound socket.
    ServeHere,
    /// Hand the bound socket to a supervisor for this many workers.
    Prefork(u32),
}

/// What came of binding the socket.
#[derive(Clone, Copy, Debug, PartialEq, Eq, Structural)]
pub enum BindEvent {
    Bound,
    Refused,
}

/// The launch as plain values.
pub struct LaunchState {
    pub address: Address,
    pub workers: u32,
    pub phase: LaunchPhase,
}

impl LaunchState {
    /// The state before the socket is bound.
    pub open spec fn init(address: Address, workers: u32) -> LaunchState {
        LaunchState { address, workers, phase: LaunchPhase::Binding }
    }

    /// The action that the state asks for.
    pub open spec fn pending(self) -> LaunchAction {
        match self.phase {
            LaunchPhase::Binding => LaunchAction::Bind(self.address),
            LaunchPhase::Aborted => LaunchAction::Abort,
            LaunchPhase::Launched(Mode::Single) => LaunchAction::ServeHere,
            LaunchPhase::Launched(Mode::Multi(n)) => LaunchAction::Prefork(n),
        }
    }

    /// The state after an event. Once the socket has been dealt with, no
    /// event changes anything.
    pub open spec fn advance(self, event: BindEvent) -> LaunchState {
        match (self.phase, event) {
            (LaunchPhase::Binding, BindEvent::Bound) => LaunchState {
                phase: LaunchPhase::Launched(Mode::of(self.workers)),
                ..self
            },
            (LaunchPhase::Binding, BindEvent::Refused) => LaunchState {
                phase: LaunchPhase::Aborted,
                ..self
            },
            _ => self,
        }
    }

    /// The state after a run of events.
    pub open spec fn run(self, events: Seq<BindEvent>) -> LaunchState
        decreases events.len(),
    {
        if events.len() == 0 {
            self
        } else {
            self.run(events.drop_last()).advance(events.last())
        }
    }
}

/// The launch of one service.
#[derive(Clone, Copy, Debug)]
pub struct Launcher {
    address: Address,
    workers: u32,
    phase: LaunchPhase,
}

impl View for Launcher {
    type V = LaunchState;

    closed spec fn view(&self) -> LaunchState {
        LaunchState { address: self.address, workers: self.workers, phase: self.phase }
    }
}

impl Launcher {
    /// The launch of a service at `address` with the configured worker
    /// count `workers`.
    pub fn new(address: Address, workers: u32) -> (r: Self)
        ensures
            r@ == LaunchState::init(address, workers),
    {
        Launcher { address, workers, phase: LaunchPhase::Binding }
    }

    /// Where the launch stands.
    pub fn phase(&self) -> (p: LaunchPhase)
        ensures
            p == self@.phase,
    {
        self.phase
    }

    /// The action that is due.
    pub fn pending(&self) -> (action: LaunchAction)
        ensures
            action == self@.pending(),
    {
        match self.phase {
            LaunchPhase::Binding => LaunchAction::Bind(self.address),
            LaunchPhase::Aborted => LaunchAction::Abort,
            LaunchPhase::Launched(Mode::Single) => LaunchAction::ServeHere,
            LaunchPhase::Launched(Mode::Multi(n)) => LaunchAction::Prefork(n),
        }
    }

    /// Takes in what came of binding the socket.
    pub fn advance(self, event: BindEvent) -> (r: Self)
        ensures
            r@ == self@.advance(event),
    {
        match (self.phase, event) {
            (LaunchPhase::Binding, BindEvent::Bound) => Launcher {
                address: self.address,
                workers: self.workers,
                phase: LaunchPhase::Launched(Mode::select(self.workers)),
            },
            (LaunchPhase::Binding, BindEvent::Refused) => Launcher {
                address: self.address,
                workers: self.workers,
                phase: LaunchPhase::Aborted,
            },
            _ => self,
        }
    }

    /// Takes in an event and names the action that is due after it.
    pub fn step(self, event: BindEvent) -> (r: (Self, LaunchAction))
        ensures
            r.0@ == self@.advance(event),
            r.1 == self@.advance(event).pending(),
    {
        let next = self.advance(event);
        let action = next.pending();
        (next, action)
    }

    /// The supervisor that takes over, if the service was launched with
    /// more than one process.
    pub fn supervisor(&self) -> (r: Option<Supervisor>)
        ensures
            match self@.phase {
                LaunchPhase::Launched(Mode::Multi(n)) => r matches Some(s) && s@
                    == SupervisorState::init(n),
                _ => r is None,
            },
    {
        match self.phase {
            LaunchPhase::Launched(Mode::Multi(n)) => Some(Supervisor::new(n)),
            _ => None,
        }
    }

    /// The status with which the parent process exits once the launch
    /// is over, unless it serves itself: failure if the socket could not
    /// be bound, success once the workers have been handed the socket,
    /// whatever becomes of them later.
    pub fn exit_status(&self) -> (r: Option<ExitStatus>)
        ensures
            r == (match self@.phase {
                LaunchPhase::Aborted => Some(ExitStatus::Failure),
                LaunchPhase::Launched(Mode::Multi(_)) => Some(ExitStatus::Success),
                _ => None::<ExitStatus>,
            }),
    {
        match self.phase {
            LaunchPhase::Aborted => Some(ExitStatus::Failure),
            LaunchPhase::Launched(Mode::Multi(_)) => Some(ExitStatus::Success),
            _ => None,
        }
    }
}

/// The socket is bound once: binding is due at the start, at the
/// configured address, and never again after the first event, whatever
/// events follow and however many workers are asked for.
pub proof fn lemma_bound_once(address: Address, workers: u32, events: Seq<BindEvent>)
    ensures
        LaunchState::init(address, workers).pending() == LaunchAction::Bind(address),
        events.len() >= 1 ==> !(LaunchState::init(address, workers).run(events).pending() is Bind),
        events.len() >= 1 ==> LaunchState::init(address, workers).run(events)
            == LaunchState::init(address, workers).advance(events[0]),
    decreases events.len(),
{
    if events.len() >= 1 {
        let before = events.drop_last();
        lemma_bound_once(address, workers, before);
        if before.len() >= 1 {
            assert(before[0] == events[0]);
        }
    }
}

/// If the socket cannot be bound, nothing is started: no worker runs in
/// this process and no process is duplicated. If it can, the service
/// runs in the mode that the worker count selects, and in single-process
/// mode no process is duplicated.
pub proof fn lemma_bind_decides(address: Address, workers: u32)
    ensures
        LaunchState::init(address, workers).advance(BindEvent::Refused).pending()
            == LaunchAction::Abort,
        LaunchState::init(address, workers).advance(BindEvent::Bound).pending() == (match Mode::of(
            workers,
        ) {
            Mode::Single => LaunchAction::ServeHere,
            Mode::Multi(n) => LaunchAction::Prefork(n),
        }),
        workers == 1 ==> LaunchState::init(address, workers).advance(BindEvent::Bound).pending()
            == LaunchAction::ServeHere,
{
}

} // verus!
