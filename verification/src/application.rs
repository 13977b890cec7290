//! The phases of the application.
//!
//! The application goes through four phases, and never back: prepared, with
//! the configuration loaded and the topology built; started, with the
//! topology under its controller; running, inside the run loop; and
//! finished, once a signal has ended the loop. Each phase is a value of its
//! own that is made from the one before and takes its place.

use crate::config::ConfigPath;
use crate::controller::TopologyController;
use crate::opts::RootOpts;
use crate::signal::SignalTo;
use crate::topology::RunningTopology;
use vstd::prelude::*;

verus! {

/// The configuration of the application, loaded and with its topology
/// built.
#[derive(Debug, PartialEq, Eq)]
pub struct ApplicationConfig<X> {
    pub config_paths: Vec<ConfigPath>,
    pub topology: RunningTopology,
    /// Topologies that observe the application itself. Each has a life of
    /// its own.
    pub internal_topologies: Vec<RunningTopology>,
    /// Whether the configuration asks for the introspection server.
    pub api_enabled: bool,
    pub extra_context: X,
}

/// The prepared application.
#[derive(Debug, PartialEq, Eq)]
pub struct Application<X> {
    pub root_opts: RootOpts,
    pub config: ApplicationConfig<X>,
}

/// The started application: the topology is under its controller, and the
/// run loop can begin.
#[derive(Debug, PartialEq, Eq)]
pub struct StartedApplication<X> {
    pub config_paths: Vec<ConfigPath>,
    pub internal_topologies: Vec<RunningTopology>,
    pub topology_controller: TopologyController<X>,
    pub allow_empty_config: bool,
}

/// The finished application: a signal has ended the run loop, and the
/// shutdown is still to come. The signal is `Shutdown` or `Quit`.
#[derive(Debug, PartialEq, Eq)]
pub struct FinishedApplication<X> {
    pub(crate) signal: SignalTo,
    pub(crate) topology_controller: TopologyController<X>,
    pub(crate) internal_topologies: Vec<RunningTopology>,
}

impl<X> FinishedApplication<X> {
    /// What holds of every finished application: the signal that ended the
    /// run loop is one that ends it.
    #[verifier::type_invariant]
    pub closed spec fn well_formed(self) -> bool {
        self.signal@.is_terminating()
    }

    /// The signal that ended the run loop.
    pub closed spec fn spec_signal(&self) -> &SignalTo {
        &self.signal
    }

    /// The controller as the run loop left it.
    pub closed spec fn spec_topology_controller(&self) -> &TopologyController<X> {
        &self.topology_controller
    }

    /// The topologies that observe the application itself.
    pub closed spec fn spec_internal_topologies(&self) -> &Vec<RunningTopology> {
        &self.internal_topologies
    }

    /// A finished application around `signal`, where `signal` ends the run
    /// loop. For any other signal the parts come back as they were given.
    pub fn new(
        signal: SignalTo,
        topology_controller: TopologyController<X>,
        internal_topologies: Vec<RunningTopology>,
    ) -> (made: Result<
        FinishedApplication<X>,
        (SignalTo, TopologyController<X>, Vec<RunningTopology>),
    >)
        ensures
            match made {
                Ok(finished) => {
                    &&& signal@.is_terminating()
                    &&& *finished.signal() == signal
                    &&& *finished.topology_controller() == topology_controller
                    &&& *finished.internal_topologies() == internal_topologies
                },
                Err(parts) => {
                    &&& !signal@.is_terminating()
                    &&& parts == (signal, topology_controller, internal_topologies)
                },
            },
    {
        if signal.is_terminating() {
            Ok(Self::around(signal, topology_controller, internal_topologies))
        } else {
            Err((signal, topology_controller, internal_topologies))
        }
    }

    /// A finished application around a signal that ends the run loop.
    pub(crate) fn around(
        signal: SignalTo,
        topology_controller: TopologyController<X>,
        internal_topologies: Vec<RunningTopology>,
    ) -> (finished: FinishedApplication<X>)
        requires
            signal@.is_terminating(),
        ensures
            *finished.signal() == signal,
            *finished.topology_controller() == topology_controller,
            *finished.internal_topologies() == internal_topologies,
    {
        FinishedApplication { signal, topology_controller, internal_topologies }
    }

    /// Takes the finished application apart: the signal, the controller,
    /// and the internal topologies.
    pub fn into_parts(self) -> (parts: (SignalTo, TopologyController<X>, Vec<RunningTopology>))
        ensures
            parts.0 == *self.signal(),
            parts.1 == *self.topology_controller(),
            parts.2 == *self.internal_topologies(),
            parts.0@.is_terminating(),
    {
        proof {
            use_type_invariant(&self);
        }
        let FinishedApplication { signal, topology_controller, internal_topologies } = self;
        (signal, topology_controller, internal_topologies)
    }

    /// The signal that ended the run loop; it is `Shutdown` or `Quit`.
    #[verifier::when_used_as_spec(spec_signal)]
    pub fn signal(&self) -> (signal: &SignalTo)
        ensures
            signal == self.spec_signal(),
            signal@.is_terminating(),
    {
        proof {
            use_type_invariant(self);
        }
        &self.signal
    }

    /// The controller as the run loop left it.
    #[verifier::when_used_as_spec(spec_topology_controller)]
    pub fn topology_controller(&self) -> (controller: &TopologyController<X>)
        ensures
            controller == self.spec_topology_controller(),
    {
        &self.topology_controller
    }

    /// The topologies that observe the application itself.
    #[verifier::when_used_as_spec(spec_internal_topologies)]
    pub fn internal_topologies(&self) -> (topologies: &Vec<RunningTopology>)
        ensures
            topologies == self.spec_internal_topologies(),
    {
        &self.internal_topologies
    }
}

} // verus!
