use jaya::report::bind_failed;
use jaya::report::child_started;
use jaya::report::parent_exiting;
use jaya::report::setback;
use jaya::report::spawn_failed;
use jaya::report::supervision_started;
use jaya::worker::Setback;

#[test]
fn the_line_for_a_socket_that_could_not_be_bound() {
    assert_eq!(bind_failed(), "Failed to bind to address");
}

#[test]
fn the_lines_for_a_worker_s_setbacks() {
    assert_eq!(setback(Setback::Scheduler, "ignored"), "cannot create runtime");
    assert_eq!(
        setback(Setback::State, "connection refused"),
        "Failed to connect to database: connection refused"
    );
    assert_eq!(
        setback(Setback::Serve, "Failed to start server"),
        "Failed to start server: Failed to start server"
    );
    assert_eq!(setback(Setback::Serve, ""), "Failed to start server: ");
}

#[test]
fn the_line_of_a_worker_that_started() {
    assert_eq!(child_started(0, 4242), "Child 0 (PID 4242) started");
    assert_eq!(child_started(3, 1), "Child 3 (PID 1) started");
    assert_eq!(
        child_started(u32::MAX, u32::MAX),
        format!("Child {} (PID {}) started", u32::MAX, u32::MAX)
    );
}

#[test]
fn the_line_for_a_duplication_that_failed() {
    assert_eq!(spawn_failed(2), "Failed to fork child 2");
    assert_eq!(spawn_failed(10), "Failed to fork child 10");
}

#[test]
fn the_line_for_the_end_of_the_duplication_phase() {
    assert_eq!(supervision_started(4, 0), "Supervision started: 4 children running, 0 failed");
    assert_eq!(supervision_started(7, 1), "Supervision started: 7 children running, 1 failed");
}

#[test]
fn the_line_with_which_the_parent_leaves() {
    assert_eq!(parent_exiting(), "Parent is exiting");
}
