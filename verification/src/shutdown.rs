//! The shutdown arbiter: how the finished application leaves.
//!
//! After `Shutdown` the topology is stopped gracefully while the signal
//! channel is still listened to. Where the topology drains first, the
//! process leaves normally. Where anything arrives on the channel first,
//! or where the time allowed for the stop runs out first, the wait is
//! abandoned and the process leaves at once. After `Quit` there
//! is no graceful stop at all. Either way the internal topologies are all
//! stopped before the process leaves.

use crate::application::{FinishedApplication, StartedApplication};
use crate::exit::{
    exit_code, exit_code_of, exitcode_unavailable, unavailable_code, ExitCode, ShutdownKind,
};
use crate::run_loop::{signal_of_rounds, Round};
use crate::signal::{SignalTo, SignalView};
use crate::topology::RunningTopology;
use vstd::prelude::*;

verus! {

/// Which of the two came first while the topology was stopped gracefully.
#[derive(Clone, Copy, Debug, PartialEq, Eq, Structural)]
pub enum StopRace {
    /// The topology drained and stopped.
    Drained,
    /// The signal channel handed something over.
    Interrupted,
    /// The time allowed for a graceful shutdown ran out.
    DeadlineExpired,
}

/// What the shutdown comes to.
#[derive(Debug, PartialEq, Eq)]
pub struct ShutdownOrder {
    /// How the shutdown ended.
    pub kind: ShutdownKind,
    /// The exit code to leave with.
    pub exit_code: ExitCode,
    /// The internal topologies. All of them are to be stopped, and their
    /// stop awaited, before the process leaves.
    pub stop_internal: Vec<RunningTopology>,
}

/// How a graceful stop ends: normally where the topology drained first,
/// forced where the signal channel or the deadline was first.
pub open spec fn stop_kind(race: StopRace) -> ShutdownKind {
    match race {
        StopRace::Drained => ShutdownKind::Graceful,
        StopRace::Interrupted => ShutdownKind::Forced,
        StopRace::DeadlineExpired => ShutdownKind::Forced,
    }
}

/// How the shutdown after `signal` ends: `Shutdown` leads to a graceful
/// stop and ends as that does, `Quit` is forced from the start.
pub open spec fn shutdown_kind(signal: SignalView, race: StopRace) -> ShutdownKind {
    match signal {
        SignalView::Shutdown(_) => stop_kind(race),
        _ => ShutdownKind::Forced,
    }
}

impl<X> FinishedApplication<X> {
    /// Whether a graceful stop is to be attempted: after `Shutdown`, with or
    /// without an error, and not after `Quit`.
    pub fn wants_graceful_stop(&self) -> (wanted: bool)
        ensures
            wanted == (self.signal()@ is Shutdown),
    {
        match self.signal() {
            SignalTo::Shutdown(_) => true,
            _ => false,
        }
    }

    /// The exit code of a forced quit.
    pub fn quit() -> (code: ExitCode)
        ensures
            code == unavailable_code(),
            code == exit_code_of(ShutdownKind::Forced),
    {
        exitcode_unavailable()
    }

    /// The exit code that a graceful stop ends with, given which came first:
    /// the end of the drain, or something on the signal channel.
    pub fn stop(race: StopRace) -> (code: ExitCode)
        ensures
            code == exit_code_of(stop_kind(race)),
    {
        match race {
            StopRace::Drained => exit_code(ShutdownKind::Graceful),
            StopRace::Interrupted => Self::quit(),
            StopRace::DeadlineExpired => Self::quit(),
        }
    }

    /// Decides how the application leaves. `holders` is the number of
    /// holders of the shared controller; by now it has to be down to the
    /// one that shuts down. `race` says how the graceful stop went, and
    /// matters only after `Shutdown`.
    ///
    /// The internal topologies are handed back to be stopped, all of them,
    /// whatever the exit code.
    pub fn shutdown(self, holders: usize, race: StopRace) -> (order: ShutdownOrder)
        requires
            holders == 1,
        ensures
            order.kind == shutdown_kind(self.signal()@, race),
            order.exit_code == exit_code_of(order.kind),
            order.stop_internal == *self.internal_topologies(),
    {
        let graceful = self.wants_graceful_stop();
        let exit_code = if graceful {
            Self::stop(race)
        } else {
            Self::quit()
        };
        let kind = if graceful {
            match race {
                StopRace::Drained => ShutdownKind::Graceful,
                StopRace::Interrupted => ShutdownKind::Forced,
                StopRace::DeadlineExpired => ShutdownKind::Forced,
            }
        } else {
            ShutdownKind::Forced
        };
        let parts = self.into_parts();
        ShutdownOrder { kind, exit_code, stop_internal: parts.2 }
    }
}

impl<X> StartedApplication<X> {
    /// The run loop and the shutdown after it, for rounds and answers that
    /// are known beforehand. Returns `None` where no round ends the loop.
    pub fn run(self, rounds: Vec<Round>, holders: usize, race: StopRace) -> (order: Option<
        ShutdownOrder,
    >)
        requires
            holders == 1,
        ensures
            match order {
                Some(order) => {
                    &&& signal_of_rounds(self.topology_controller@, rounds.deep_view()) matches Some(signal)
                    &&& order.kind == shutdown_kind(signal, race)
                    &&& order.exit_code == exit_code_of(order.kind)
                    &&& order.stop_internal == self.internal_topologies
                },
                None => signal_of_rounds(self.topology_controller@, rounds.deep_view()) is None,
            },
    {
        match self.main(rounds) {
            Ok(finished) => Some(finished.shutdown(holders, race)),
            Err(_) => None,
        }
    }
}

} // verus!
