use jaya::address::Address;
use jaya::address::IpAddress;
use jaya::launch::BindEvent;
use jaya::launch::LaunchAction;
use jaya::launch::LaunchPhase;
use jaya::launch::Launcher;
use jaya::mode::Mode;
use jaya::supervisor::Action;
use jaya::worker::ExitStatus;

fn local() -> Address {
    Address::new(IpAddress::V4(127, 0, 0, 1), 8080)
}

#[test]
fn the_launch_starts_by_binding_the_configured_address() {
    let launcher = Launcher::new(local(), 4);
    assert_eq!(launcher.pending(), LaunchAction::Bind(local()));
    assert_eq!(launcher.phase(), LaunchPhase::Binding);
    assert_eq!(launcher.exit_status(), None);
    assert!(launcher.supervisor().is_none());
}

#[test]
fn an_occupied_address_starts_nothing() {
    let launcher = Launcher::new(local(), 4).advance(BindEvent::Refused);
    assert_eq!(launcher.pending(), LaunchAction::Abort);
    assert_eq!(launcher.phase(), LaunchPhase::Aborted);
    assert_eq!(launcher.exit_status(), Some(ExitStatus::Failure));
    assert!(launcher.supervisor().is_none());
    let later = launcher.advance(BindEvent::Bound);
    assert_eq!(later.pending(), LaunchAction::Abort);
    assert!(later.supervisor().is_none());
}

#[test]
fn one_process_serves_in_the_calling_process() {
    let (launcher, action) = Launcher::new(local(), 1).step(BindEvent::Bound);
    assert_eq!(action, LaunchAction::ServeHere);
    assert_eq!(launcher.phase(), LaunchPhase::Launched(Mode::Single));
    assert!(launcher.supervisor().is_none());
    assert_eq!(launcher.exit_status(), None);
}

#[test]
fn four_processes_are_handed_to_a_supervisor() {
    let launcher = Launcher::new(local(), 4).advance(BindEvent::Bound);
    assert_eq!(launcher.pending(), LaunchAction::Prefork(4));
    let supervisor = launcher.supervisor().unwrap();
    assert_eq!(supervisor.workers(), 4);
    assert_eq!(supervisor.pending(), Action::Spawn(0));
    assert_eq!(launcher.exit_status(), Some(ExitStatus::Success));
}

#[test]
fn zero_launches_the_default_number_of_workers() {
    let launcher = Launcher::new(local(), 0).advance(BindEvent::Bound);
    assert_eq!(launcher.pending(), LaunchAction::Prefork(8));
    assert_eq!(launcher.supervisor().unwrap().workers(), 8);
}

#[test]
fn the_socket_is_bound_once() {
    for workers in [0u32, 1, 2, 4, 16] {
        for first in [BindEvent::Bound, BindEvent::Refused] {
            let mut launcher = Launcher::new(local(), workers);
            let mut binds = 0;
            for event in [first, BindEvent::Bound, BindEvent::Refused, BindEvent::Bound] {
                if matches!(launcher.pending(), LaunchAction::Bind(_)) {
                    binds += 1;
                }
                launcher = launcher.advance(event);
            }
            assert!(!matches!(launcher.pending(), LaunchAction::Bind(_)));
            assert_eq!(binds, 1);
        }
    }
}
