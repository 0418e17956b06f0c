//! The exit code of a finished command, as the queue passes it on.
use vstd::prelude::*;

verus! {

/// The exit code when a command ended without one and without a signal.
pub const EXIT_UNKNOWN: i32 = 125;

/// The exit code of a command: its own code when it has one, else 128 plus the
/// signal that ended it, else 125.
pub open spec fn exit_code_of(code: Option<i32>, signal: Option<i32>) -> int {
    match code {
        Some(c) => c as int,
        None => match signal {
            Some(s) => 128 + s,
            None => EXIT_UNKNOWN as int,
        },
    }
}

/// The exit code that the queue ends with for a command that ended with `code`
/// or by `signal`.
pub fn exit_code_from_status(code: Option<i32>, signal: Option<i32>) -> (r: i32)
    requires
        code is None ==> (signal matches Some(s) ==> s <= i32::MAX - 128),
    ensures
        r as int == exit_code_of(code, signal),
{
    match code {
        Some(c) => c,
        None => match signal {
            Some(s) => 128 + s,
            None => EXIT_UNKNOWN,
        },
    }
}

/// The exit code when the command was found but cannot be executed.
pub const EXIT_NOT_EXECUTABLE: i32 = 126;

/// The exit code when the command was not found.
pub const EXIT_NOT_FOUND: i32 = 127;

/// Why a command could not be started.
#[derive(Debug, Clone, Copy, PartialEq, Eq, Structural)]
pub enum SpawnFailure {
    /// There is no such command.
    NotFound,
    /// The command is there but may not be executed.
    NotExecutable,
    /// Anything else went wrong.
    Other,
}

/// The exit code of a command that could not be started: 127 when it was not
/// found, 126 when it cannot be executed, 125 (an internal error) otherwise.
pub open spec fn spawn_failure_code(f: SpawnFailure) -> i32 {
    match f {
        SpawnFailure::NotFound => EXIT_NOT_FOUND,
        SpawnFailure::NotExecutable => EXIT_NOT_EXECUTABLE,
        SpawnFailure::Other => EXIT_UNKNOWN,
    }
}

/// The exit code that the queue ends with for a command that could not be started.
pub fn exit_code_from_spawn_failure(f: SpawnFailure) -> (r: i32)
    ensures
        r == spawn_failure_code(f),
{
    match f {
        SpawnFailure::NotFound => EXIT_NOT_FOUND,
        SpawnFailure::NotExecutable => EXIT_NOT_EXECUTABLE,
        SpawnFailure::Other => EXIT_UNKNOWN,
    }
}

/// A command's own exit code is passed on unchanged, whatever it is.
pub proof fn law_exit_code_passes_through(c: i32, signal: Option<i32>)
    ensures
        exit_code_of(Some(c), signal) == c as int,
{
}

} // verus!
