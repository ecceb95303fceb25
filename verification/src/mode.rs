//! Mode selection: from the configured worker count to the way the
//! service is executed.

use vstd::prelude::*;

verus! {

/// The worker count that stands for "serve in this process".
pub const SINGLE_PROCESS: u32 = 1;

/// The worker count that stands for "use the default number of workers".
pub const DEFAULT_COUNT: u32 = 0;

/// The number of workers that the forking library starts when it is not
/// told how many.
pub const DEFAULT_WORKERS: u32 = 8;

/// How the service is executed: in the calling process, or in a fleet of
/// duplicated worker processes.
#[derive(Clone, Copy, Debug, PartialEq, Eq, Structural)]
pub enum Mode {
    /// Serve in the calling process; no process is duplicated.
    Single,
    /// Serve in this many worker processes.
    Multi(u32),
}

/// Reads `prefork::DEFAULT_NUM_PROCESSES`, the forking library's default
/// number of processes. The contract claims its value, 8, as the
/// library's source declares it.
#[verifier::external_body]
fn default_num_processes() -> (n: u32)
    ensures
        n == DEFAULT_WORKERS,
{
    prefork::DEFAULT_NUM_PROCESSES
}

impl Mode {
    /// The mode that a configured worker count selects.
    pub open spec fn of(workers: u32) -> Mode {
        if workers == SINGLE_PROCESS {
            Mode::Single
        } else if workers == DEFAULT_COUNT {
            Mode::Multi(DEFAULT_WORKERS)
        } else {
            Mode::Multi(workers)
        }
    }

    /// The number of processes that are duplicated in this mode.
    pub open spec fn duplications(self) -> nat {
        match self {
            Mode::Single => 0,
            Mode::Multi(n) => n as nat,
        }
    }

    /// Selects the mode for a configured worker count: 1 serves in the
    /// calling process, 0 asks for the default number of workers, any
    /// other count is taken as it is.
    pub fn select(workers: u32) -> (mode: Mode)
        ensures
            mode == Mode::of(workers),
    {
        if workers == SINGLE_PROCESS {
            Mode::Single
        } else if workers == DEFAULT_COUNT {
            Mode::Multi(default_num_processes())
        } else {
            Mode::Multi(workers)
        }
    }

    /// The number of worker processes that serve in this mode: one in
    /// single-process mode, where the calling process is the worker.
    pub fn worker_count(&self) -> (n: u32)
        ensures
            n == (match *self {
                Mode::Single => 1u32,
                Mode::Multi(n) => n,
            }),
    {
        match self {
            Mode::Single => 1,
            Mode::Multi(n) => *n,
        }
    }
}

/// Every worker count selects a mode: single-process exactly for 1, the
/// default number of workers, which is at least one, for 0, and the count
/// itself for every count above 1. A multi-process mode never has zero
/// workers, and single-process mode duplicates nothing.
pub proof fn lemma_mode_normalization(workers: u32)
    ensures
        Mode::of(workers) == Mode::Single <==> workers == 1,
        workers == 0 ==> Mode::of(workers) == Mode::Multi(DEFAULT_WORKERS) && DEFAULT_WORKERS >= 1,
        workers > 1 ==> Mode::of(workers) == Mode::Multi(workers),
        Mode::of(workers) matches Mode::Multi(n) ==> n >= 1,
        workers == 1 ==> Mode::of(workers).duplications() == 0,
{
}

} // verus!
