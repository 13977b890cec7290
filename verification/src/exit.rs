//! Process exit codes.

use vstd::prelude::*;

verus! {

/// A process exit code, as handed to the operating system.
pub type ExitCode = i32;

/// How a shutdown ended.
#[derive(Clone, Copy, Debug, PartialEq, Eq, Structural)]
pub enum ShutdownKind {
    /// The topology drained and stopped before anything else happened.
    Graceful,
    /// The drain was skipped or abandoned.
    Forced,
}

/// The exit code of a successful run, as a number.
pub open spec fn ok_code() -> int {
    0
}

/// The exit code of a command line usage error, as a number.
pub open spec fn usage_code() -> int {
    64
}

/// The exit code of a service that is unavailable, as a number.
pub open spec fn unavailable_code() -> int {
    69
}

/// The exit code of a configuration error, as a number.
pub open spec fn config_code() -> int {
    78
}

/// The exit code that `kind` of shutdown leaves the process with.
pub open spec fn exit_code_of(kind: ShutdownKind) -> int {
    match kind {
        ShutdownKind::Graceful => ok_code(),
        ShutdownKind::Forced => unavailable_code(),
    }
}

/// Reads the constant `exitcode::OK`; the contract claims its value, 0.
#[verifier::external_body]
pub(crate) fn exitcode_ok() -> (code: ExitCode)
    ensures
        code == ok_code(),
{
    exitcode::OK
}

/// Reads the constant `exitcode::USAGE`; the contract claims its value, 64.
#[verifier::external_body]
pub(crate) fn exitcode_usage() -> (code: ExitCode)
    ensures
        code == usage_code(),
{
    exitcode::USAGE
}

/// Reads the constant `exitcode::UNAVAILABLE`; the contract claims its value, 69.
#[verifier::external_body]
pub(crate) fn exitcode_unavailable() -> (code: ExitCode)
    ensures
        code == unavailable_code(),
{
    exitcode::UNAVAILABLE
}

/// Reads the constant `exitcode::CONFIG`; the contract claims its value, 78.
#[verifier::external_body]
pub(crate) fn exitcode_config() -> (code: ExitCode)
    ensures
        code == config_code(),
{
    exitcode::CONFIG
}

/// Maps the way a shutdown ended to the process exit code: a graceful
/// stop leaves with the success code, a forced one with the code for an
/// unavailable service, on every platform.
pub fn exit_code(kind: ShutdownKind) -> (code: ExitCode)
    ensures
        code == exit_code_of(kind),
{
    match kind {
        ShutdownKind::Graceful => exitcode_ok(),
        ShutdownKind::Forced => exitcode_unavailable(),
    }
}

/// The two ways a shutdown can end never share an exit code.
pub proof fn lemma_exit_codes_distinct()
    ensures
        exit_code_of(ShutdownKind::Graceful) != exit_code_of(ShutdownKind::Forced),
{
}

} // verus!
