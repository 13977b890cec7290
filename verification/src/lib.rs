//! Lifecycle and reload control for a streaming telemetry pipeline.
//!
//! The crate holds the decisions of the control core: how signals are
//! classified, how a reload is validated, diffed and swapped in, when the run
//! loop ends, and which exit code the process leaves with. Everything that
//! waits on the outside world (channels, the pipeline engine, the file system)
//! is driven by the caller, which feeds the results back in as plain values.
//!
//! The modules, from the leaves up:
//!
//! - [`exit`]: the exit codes of the process.
//! - [`config`]: components, configurations, and how one is built.
//! - [`diff`]: what a reload has to stop, start and restart.
//! - [`topology`]: the running topology and its epochs.
//! - [`signal`]: the signals that reach the lifecycle machine.
//! - [`controller`]: the topology controller and the reload protocol.
//! - [`application`]: the phases of the application.
//! - [`run_loop`]: the run loop, round by round.
//! - [`shutdown`]: the shutdown arbiter.
//! - [`opts`], [`logging`], [`runtime`], [`startup`]: from the command line
//!   to the started application.
//! - [`laws`]: what holds of all of it, whatever the inputs.

pub mod application;
pub mod config;
pub mod controller;
pub mod diff;
pub mod exit;
pub mod laws;
pub mod logging;
pub mod opts;
pub mod run_loop;
pub mod runtime;
pub mod shutdown;
pub mod signal;
pub mod startup;
pub mod topology;
