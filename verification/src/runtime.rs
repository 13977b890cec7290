//! The plan for the task scheduler: how many worker threads it gets.
//!
//! The number of worker threads is fixed once per process. It is kept in a
//! cell that starts out empty and is filled when the scheduler is planned; a
//! second attempt to fill it is an error of the caller.

use crate::exit::{config_code, exitcode_config, ExitCode};
use vstd::prelude::*;
use vstd::string::*;

verus! {

/// The most threads that the scheduler may use for blocking work.
pub const MAX_BLOCKING_THREADS: usize = 20_000;

/// The cell that holds the number of worker threads, once it is known.
#[derive(Debug)]
pub struct WorkerThreads {
    count: usize,
}

impl View for WorkerThreads {
    type V = Option<usize>;

    /// The number of worker threads, where it was fixed.
    closed spec fn view(&self) -> Option<usize> {
        if self.count == 0 {
            None
        } else {
            Some(self.count)
        }
    }
}

impl WorkerThreads {
    /// An empty cell.
    pub fn new() -> (cell: WorkerThreads)
        ensures
            cell@ is None,
    {
        WorkerThreads { count: 0 }
    }

    /// Whether the number of worker threads was fixed.
    pub fn is_set(&self) -> (set: bool)
        ensures
            set == (self@ is Some),
    {
        self.count != 0
    }
}

/// The number of worker threads, where it was fixed.
pub fn worker_threads(cell: &WorkerThreads) -> (threads: Option<usize>)
    ensures
        threads == cell@,
        threads != Some(0usize),
{
    if cell.count == 0 {
        None
    } else {
        Some(cell.count)
    }
}

/// What the scheduler is built from.
#[derive(Clone, Debug, PartialEq, Eq)]
pub struct RuntimePlan {
    pub worker_threads: usize,
    pub max_blocking_threads: usize,
    pub thread_name: String,
}

/// The number of worker threads in effect: the number asked for, or else
/// the number that the machine offers.
pub open spec fn threads_of(threads: Option<usize>, available: usize) -> usize {
    match threads {
        Some(n) => n,
        None => available,
    }
}

/// Plans the scheduler. `threads` is the number of worker threads asked for,
/// `available` the number that the machine offers, which stands in where
/// none was asked for.
///
/// A number of zero is a configuration error, and leaves the cell as it
/// was. Any other number is written to the cell, which has to be empty: the
/// number of worker threads is fixed once.
pub fn build_runtime(
    threads: Option<usize>,
    thread_name: &str,
    available: usize,
    cell: &mut WorkerThreads,
) -> (plan: Result<RuntimePlan, ExitCode>)
    requires
        threads_of(threads, available) != 0 ==> old(cell)@ is None,
    ensures
        match plan {
            Ok(plan) => {
                &&& threads_of(threads, available) != 0
                &&& plan.worker_threads == threads_of(threads, available)
                &&& plan.max_blocking_threads == MAX_BLOCKING_THREADS
                &&& plan.thread_name@ == thread_name@
                &&& final(cell)@ == Some(threads_of(threads, available))
            },
            Err(code) => {
                &&& threads_of(threads, available) == 0
                &&& code == config_code()
                &&& final(cell)@ == old(cell)@
            },
        },
{
    let threads = match threads {
        Some(n) => n,
        None => available,
    };
    if threads == 0 {
        return Err(exitcode_config());
    }
    cell.count = threads;
    Ok(
        RuntimePlan {
            worker_threads: threads,
            max_blocking_threads: MAX_BLOCKING_THREADS,
            thread_name: String::from_str(thread_name),
        },
    )
}

} // verus!
