//! The lines with which the launch, the supervisor and the workers make
//! known what happened.

use crate::text::decimal;
use crate::text::decimal_text;
use crate::worker::Setback;
use vstd::prelude::*;
use vstd::string::StringExecFns;

verus! {

/// The line for a socket that could not be bound.
pub open spec fn bind_failed_line() -> Seq<char> {
    "Failed to bind to address"@
}

/// The line for a setback of a worker, with the text of the failure
/// behind it.
pub open spec fn setback_line(setback: Setback, detail: Seq<char>) -> Seq<char> {
    match setback {
        Setback::Scheduler => "cannot create runtime"@,
        Setback::State => "Failed to connect to database: "@ + detail,
        Setback::Serve => "Failed to start server: "@ + detail,
    }
}

/// The line with which a worker makes itself known.
pub open spec fn child_started_line(index: u32, pid: u32) -> Seq<char> {
    "Child "@ + decimal(index as nat) + " (PID "@ + decimal(pid as nat) + ") started"@
}

/// The line for a duplication that failed.
pub open spec fn spawn_failed_line(index: u32) -> Seq<char> {
    "Failed to fork child "@ + decimal(index as nat)
}

/// The line with which the parent process makes known that the
/// duplication phase is over.
pub open spec fn supervision_started_line(started: u32, failed: u32) -> Seq<char> {
    "Supervision started: "@ + decimal(started as nat) + " children running, "@ + decimal(
        failed as nat,
    ) + " failed"@
}

/// The line with which the parent process takes its leave.
pub open spec fn parent_exiting_line() -> Seq<char> {
    "Parent is exiting"@
}

/// The line for a socket that could not be bound.
pub fn bind_failed() -> (r: &'static str)
    ensures
        r@ == bind_failed_line(),
{
    "Failed to bind to address"
}

/// The line for a setback of a worker.
pub fn setback(kind: Setback, detail: &str) -> (r: String)
    ensures
        r@ == setback_line(kind, detail@),
{
    match kind {
        Setback::Scheduler => String::from_str("cannot create runtime"),
        Setback::State => {
            let mut line = String::from_str("Failed to connect to database: ");
            line.append(detail);
            line
        },
        Setback::Serve => {
            let mut line = String::from_str("Failed to start server: ");
            line.append(detail);
            line
        },
    }
}

/// The line with which a worker makes itself known.
pub fn child_started(index: u32, pid: u32) -> (r: String)
    ensures
        r@ == child_started_line(index, pid),
{
    let mut line = String::from_str("Child ");
    line.append(decimal_text(index as u64).as_str());
    line.append(" (PID ");
    line.append(decimal_text(pid as u64).as_str());
    line.append(") started");
    line
}

/// The line for a duplication that failed.
pub fn spawn_failed(index: u32) -> (r: String)
    ensures
        r@ == spawn_failed_line(index),
{
    let mut line = String::from_str("Failed to fork child ");
    line.append(decimal_text(index as u64).as_str());
    line
}

/// The line with which the parent process makes known that the
/// duplication phase is over.
pub fn supervision_started(started: u32, failed: u32) -> (r: String)
    ensures
        r@ == supervision_started_line(started, failed),
{
    let mut line = String::from_str("Supervision started: ");
    line.append(decimal_text(started as u64).as_str());
    line.append(" children running, ");
    line.append(decimal_text(failed as u64).as_str());
    line.append(" failed");
    line
}

/// The line with which the parent process takes its leave.
pub fn parent_exiting() -> (r: &'static str)
    ensures
        r@ == parent_exiting_line(),
{
    "Parent is exiting"
}

} // verus!
