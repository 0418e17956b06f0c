//! The queue's errors, their messages, and the exit codes they end a command with.
use vstd::prelude::*;
use crate::text::push_str;

verus! {

/// What can go wrong in a queue operation.
#[derive(Debug)]
pub enum QueueError {
    State(String),
    LockError(String),
    /// An I/O failure, by its message.
    Io(String),
    /// A JSON encoding or decoding failure, by its message.
    Serialization(String),
    Execution(String),
    Timeout,
    InvalidToken,
    QueueNotLocked,
    QueueAlreadyLocked,
    LockAcquisitionTimeout,
    Cancelled,
}

/// The message of an error, as the command line shows it.
pub open spec fn error_message(e: QueueError) -> Seq<char> {
    match e {
        QueueError::State(m) => "Queue state error: "@ + m@,
        QueueError::LockError(m) => "Lock acquisition failed: "@ + m@,
        QueueError::Io(m) => "IO error: "@ + m@,
        QueueError::Serialization(m) => "Serialization error: "@ + m@,
        QueueError::Execution(m) => "Process execution error: "@ + m@,
        QueueError::Timeout => "Timeout waiting for lock"@,
        QueueError::InvalidToken => "Invalid token provided for lock release"@,
        QueueError::QueueNotLocked => "Queue is not currently locked"@,
        QueueError::QueueAlreadyLocked => "Queue is already locked"@,
        QueueError::LockAcquisitionTimeout => "Timeout acquiring explicit lock"@,
        QueueError::Cancelled => "Cancelled by user signal"@,
    }
}

/// Exit code of a command that gave up waiting because its timeout expired.
pub const EXIT_TIMEOUT: i32 = 124;

/// Exit code of an internal queue failure.
pub const EXIT_INTERNAL: i32 = 125;

/// Exit code of a command interrupted by the user (SIGINT).
pub const EXIT_INTERRUPTED: i32 = 130;

/// Exit code of a failed lock release.
pub const EXIT_RELEASE_FAILED: i32 = 1;

/// The exit code with which `run` and `lock` end when waiting failed with `e`.
pub open spec fn wait_exit_code(e: QueueError) -> i32 {
    match e {
        QueueError::Timeout => EXIT_TIMEOUT,
        QueueError::Cancelled => EXIT_INTERRUPTED,
        _ => EXIT_INTERNAL,
    }
}

impl QueueError {
    /// The message of the error.
    pub fn message(&self) -> (r: String)
        ensures
            r@ == error_message(*self),
    {
        let mut s = String::new();
        match self {
            QueueError::State(m) => {
                push_str(&mut s, "Queue state error: ");
                push_str(&mut s, m.as_str());
            },
            QueueError::LockError(m) => {
                push_str(&mut s, "Lock acquisition failed: ");
                push_str(&mut s, m.as_str());
            },
            QueueError::Io(m) => {
                push_str(&mut s, "IO error: ");
                push_str(&mut s, m.as_str());
            },
            QueueError::Serialization(m) => {
                push_str(&mut s, "Serialization error: ");
                push_str(&mut s, m.as_str());
            },
            QueueError::Execution(m) => {
                push_str(&mut s, "Process execution error: ");
                push_str(&mut s, m.as_str());
            },
            QueueError::Timeout => push_str(&mut s, "Timeout waiting for lock"),
            QueueError::InvalidToken => push_str(&mut s, "Invalid token provided for lock release"),
            QueueError::QueueNotLocked => push_str(&mut s, "Queue is not currently locked"),
            QueueError::QueueAlreadyLocked => push_str(&mut s, "Queue is already locked"),
            QueueError::LockAcquisitionTimeout => push_str(&mut s, "Timeout acquiring explicit lock"),
            QueueError::Cancelled => push_str(&mut s, "Cancelled by user signal"),
        }
        assert(s@ =~= error_message(*self));
        s
    }

    /// The exit code with which `run` and `lock` end when waiting failed with this
    /// error: 124 for a timeout, 130 for an interruption, 125 otherwise.
    pub fn wait_exit_code(&self) -> (r: i32)
        ensures
            r == wait_exit_code(*self),
    {
        match self {
            QueueError::Timeout => EXIT_TIMEOUT,
            QueueError::Cancelled => EXIT_INTERRUPTED,
            _ => EXIT_INTERNAL,
        }
    }
}

} // verus!
