//! The instructions that reach the lifecycle machine, and the ways in which
//! receiving one can fail.

use crate::config::{ConfigBuilder, ConfigView};
use vstd::prelude::*;

verus! {

/// A failure after which the pipeline cannot go on running.
#[derive(Clone, Debug, PartialEq, Eq)]
pub enum ShutdownError {
    /// The introspection server could not be started.
    ApiFailed { error: String },
    /// A reload failed, and the configuration that ran before it could not
    /// be restored.
    ReloadFailedToRestore,
    /// A component failed while it ran.
    ComponentCrashed { key: String, error: String },
}

/// The mathematical value of a [`ShutdownError`].
pub enum ShutdownErrorView {
    ApiFailed { error: Seq<char> },
    ReloadFailedToRestore,
    ComponentCrashed { key: Seq<char>, error: Seq<char> },
}

impl View for ShutdownError {
    type V = ShutdownErrorView;

    open spec fn view(&self) -> ShutdownErrorView {
        match self {
            ShutdownError::ApiFailed { error } => ShutdownErrorView::ApiFailed { error: error@ },
            ShutdownError::ReloadFailedToRestore => ShutdownErrorView::ReloadFailedToRestore,
            ShutdownError::ComponentCrashed { key, error } => ShutdownErrorView::ComponentCrashed {
                key: key@,
                error: error@,
            },
        }
    }
}

impl DeepView for ShutdownError {
    type V = ShutdownErrorView;

    open spec fn deep_view(&self) -> ShutdownErrorView {
        self@
    }
}

/// One instruction to the lifecycle machine.
#[derive(Clone, Debug, PartialEq, Eq)]
pub enum SignalTo {
    /// Reload from disk, and restart the named components even if their
    /// description did not change.
    ReloadComponents(Vec<String>),
    /// Reload with a configuration that was put together in memory.
    ReloadFromConfigBuilder(ConfigBuilder),
    /// Reload from disk.
    ReloadFromDisk,
    /// Stop gracefully; the error, if any, is what made stopping necessary.
    Shutdown(Option<ShutdownError>),
    /// Stop at once.
    Quit,
}

/// The mathematical value of a [`SignalTo`].
pub enum SignalView {
    ReloadComponents(Seq<Seq<char>>),
    ReloadFromConfigBuilder(ConfigView),
    ReloadFromDisk,
    Shutdown(Option<ShutdownErrorView>),
    Quit,
}

impl View for SignalTo {
    type V = SignalView;

    open spec fn view(&self) -> SignalView {
        match self {
            SignalTo::ReloadComponents(keys) => SignalView::ReloadComponents(keys.deep_view()),
            SignalTo::ReloadFromConfigBuilder(builder) => SignalView::ReloadFromConfigBuilder(
                builder@,
            ),
            SignalTo::ReloadFromDisk => SignalView::ReloadFromDisk,
            SignalTo::Shutdown(error) => SignalView::Shutdown(error.deep_view()),
            SignalTo::Quit => SignalView::Quit,
        }
    }
}

impl DeepView for SignalTo {
    type V = SignalView;

    open spec fn deep_view(&self) -> SignalView {
        self@
    }
}

impl SignalView {
    /// Whether the signal ends the run loop: `Shutdown` and `Quit` do, the
    /// three reload requests do not.
    pub open spec fn is_terminating(self) -> bool {
        self is Shutdown || self is Quit
    }
}

impl SignalTo {
    /// Whether the signal ends the run loop.
    pub fn is_terminating(&self) -> (terminating: bool)
        ensures
            terminating == self@.is_terminating(),
    {
        match self {
            SignalTo::Shutdown(_) => true,
            SignalTo::Quit => true,
            _ => false,
        }
    }
}

/// Why the signal channel handed over no signal.
#[derive(Clone, Copy, Debug, PartialEq, Eq, Structural)]
pub enum ReceiveError {
    /// The reader fell behind, and this many of the oldest signals were
    /// dropped. The channel is still open.
    Lagged(u64),
    /// Every sender is gone: no signal will ever arrive.
    Closed,
}

} // verus!
