use jaya::supervisor::Action;
use jaya::supervisor::Event;
use jaya::supervisor::Phase;
use jaya::supervisor::Supervisor;

/// Drives a supervisor as the parent process sees it, with every
/// duplication succeeding, and returns the actions it asked for.
fn drive_parent(workers: u32) -> Vec<Action> {
    let mut supervisor = Supervisor::new(workers);
    let mut actions = Vec::new();
    loop {
        let action = supervisor.pending();
        actions.push(action);
        let event = match action {
            Action::Spawn(_) => Event::Spawned,
            Action::Stop => break,
            _ => Event::Done,
        };
        supervisor = supervisor.advance(event);
    }
    actions
}

#[test]
fn four_workers_are_spawned_with_indices_zero_to_three() {
    let actions = drive_parent(4);
    let spawned: Vec<u32> = actions
        .iter()
        .filter_map(|a| match a {
            Action::Spawn(i) => Some(*i),
            _ => None,
        })
        .collect();
    assert_eq!(spawned, vec![0, 1, 2, 3]);
    assert_eq!(
        actions,
        vec![
            Action::Spawn(0),
            Action::Spawn(1),
            Action::Spawn(2),
            Action::Spawn(3),
            Action::ReportStarted { started: 4, failed: 0 },
            Action::Supervise,
            Action::Stop,
        ]
    );
}

#[test]
fn each_duplicate_runs_as_the_worker_of_its_index() {
    let mut entered = Vec::new();
    let mut parent = Supervisor::new(4);
    while let Action::Spawn(index) = parent.pending() {
        let child = parent.advance(Event::Child);
        assert_eq!(child.pending(), Action::RunWorker(index));
        assert_eq!(child.worker_index(), Some(index));
        assert_eq!(child.phase(), Phase::Worker(index));
        entered.push(index);
        parent = parent.advance(Event::Spawned);
    }
    assert_eq!(entered, vec![0, 1, 2, 3]);
    assert_eq!(parent.worker_index(), None);
}

#[test]
fn a_worker_never_spawns() {
    let child = Supervisor::new(4).advance(Event::Spawned).advance(Event::Child);
    assert_eq!(child.pending(), Action::RunWorker(1));
    for event in [Event::Spawned, Event::Child, Event::SpawnFailed, Event::ChildExited] {
        let after = child.advance(event);
        assert_eq!(after.pending(), Action::RunWorker(1));
    }
    let done = child.advance(Event::Done);
    assert_eq!(done.pending(), Action::Stop);
    assert_eq!(done.phase(), Phase::Finished);
    for event in
        [Event::Spawned, Event::Child, Event::SpawnFailed, Event::Done, Event::ChildExited]
    {
        assert_eq!(done.advance(event).pending(), Action::Stop);
    }
}

#[test]
fn a_failed_duplication_is_made_known_and_the_rest_goes_on() {
    let mut s = Supervisor::new(3);
    assert_eq!(s.pending(), Action::Spawn(0));
    s = s.advance(Event::Spawned);
    assert_eq!(s.pending(), Action::Spawn(1));
    s = s.advance(Event::SpawnFailed);
    assert_eq!(s.pending(), Action::Diagnose(1));
    assert_eq!(s.phase(), Phase::Diagnosing);
    s = s.advance(Event::Done);
    assert_eq!(s.pending(), Action::Spawn(2));
    assert_eq!(s.failed(), 1);
    s = s.advance(Event::Spawned);
    assert_eq!(s.pending(), Action::ReportStarted { started: 2, failed: 1 });
    assert_eq!(s.started(), 2);
    assert_eq!(s.attempted(), 3);
    assert_eq!(s.workers(), 3);
}

#[test]
fn every_duplication_may_fail() {
    let mut s = Supervisor::new(2);
    s = s.advance(Event::SpawnFailed).advance(Event::Done);
    s = s.advance(Event::SpawnFailed).advance(Event::Done);
    assert_eq!(s.pending(), Action::ReportStarted { started: 0, failed: 2 });
}

#[test]
fn no_workers_means_no_duplication() {
    assert_eq!(
        drive_parent(0),
        vec![Action::ReportStarted { started: 0, failed: 0 }, Action::Stop]
    );
}

#[test]
fn one_worker_is_one_duplication() {
    let s = Supervisor::new(1);
    assert_eq!(s.pending(), Action::Spawn(0));
    let (s, action) = s.step(Event::Spawned);
    assert_eq!(action, Action::ReportStarted { started: 1, failed: 0 });
    assert_eq!(s.phase(), Phase::Reporting);
}

#[test]
fn an_event_that_answers_nothing_changes_nothing() {
    let s = Supervisor::new(2);
    assert_eq!(s.advance(Event::Done).pending(), Action::Spawn(0));
    let diagnosing = s.advance(Event::SpawnFailed);
    assert_eq!(diagnosing.advance(Event::Spawned).pending(), Action::Diagnose(0));
    assert_eq!(diagnosing.advance(Event::Child).pending(), Action::Diagnose(0));
    let reporting = Supervisor::new(0);
    assert_eq!(
        reporting.advance(Event::Spawned).pending(),
        Action::ReportStarted { started: 0, failed: 0 }
    );
}

#[test]
fn step_is_advance_then_pending() {
    let s = Supervisor::new(4);
    let (next, action) = s.step(Event::Spawned);
    assert_eq!(action, s.advance(Event::Spawned).pending());
    assert_eq!(next.attempted(), 1);
}

#[test]
fn the_number_of_spawns_is_the_number_of_workers() {
    for n in 0u32..20 {
        let spawns = drive_parent(n).iter().filter(|a| matches!(a, Action::Spawn(_))).count();
        assert_eq!(spawns as u32, n);
    }
}

#[test]
fn the_parent_waits_until_its_last_worker_has_exited() {
    let mut s = Supervisor::new(3);
    for _ in 0..3 {
        s = s.advance(Event::Spawned);
    }
    assert_eq!(s.running(), 3);
    s = s.advance(Event::Done);
    assert_eq!(s.phase(), Phase::Supervising);
    assert_eq!(s.pending(), Action::Supervise);
    s = s.advance(Event::ChildExited);
    assert_eq!(s.running(), 2);
    assert_eq!(s.pending(), Action::Supervise);
    s = s.advance(Event::ChildExited);
    assert_eq!(s.pending(), Action::Supervise);
    s = s.advance(Event::ChildExited);
    assert_eq!(s.running(), 0);
    assert_eq!(s.pending(), Action::Stop);
    s = s.advance(Event::ChildExited);
    assert_eq!(s.running(), 0);
    assert_eq!(s.pending(), Action::Stop);
    assert_eq!(s.started(), 3);
}

#[test]
fn a_worker_may_exit_while_others_are_still_being_started() {
    let mut s = Supervisor::new(3);
    s = s.advance(Event::Spawned);
    s = s.advance(Event::ChildExited);
    assert_eq!(s.running(), 0);
    assert_eq!(s.pending(), Action::Spawn(1));
    s = s.advance(Event::ChildExited);
    assert_eq!(s.running(), 0);
    s = s.advance(Event::SpawnFailed).advance(Event::Done).advance(Event::Spawned);
    assert_eq!(s.pending(), Action::ReportStarted { started: 2, failed: 1 });
    assert_eq!(s.running(), 1);
}

#[test]
fn a_duplicate_has_no_workers_of_its_own() {
    let child = Supervisor::new(3).advance(Event::Spawned).advance(Event::Spawned).advance(Event::Child);
    assert_eq!(child.running(), 0);
    assert_eq!(child.worker_index(), Some(2));
}

#[test]
fn the_parent_may_leave_while_workers_run() {
    let s = Supervisor::new(1).advance(Event::Spawned).advance(Event::Done);
    assert_eq!(s.pending(), Action::Supervise);
    let s = s.advance(Event::Done);
    assert_eq!(s.phase(), Phase::Finished);
    assert_eq!(s.pending(), Action::Stop);
}
