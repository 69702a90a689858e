//! Exit statuses of child processes and the errors this library surfaces.

use vstd::prelude::*;

verus! {

/// Terminal disposition of a child process: a normal exit with a code, a
/// signal-based termination, or a status that could not be determined.
#[derive(Clone, Copy, Debug, PartialEq, Eq, Structural)]
pub enum Status {
    /// The process exited normally with the given code.
    Exited(u32),
    /// The process was killed by the given signal.
    Signaled(i32),
    /// The status could not be determined.
    Undetermined,
}

/// A status counts as success exactly when it is a clean exit with code 0.
pub open spec fn is_success(status: Status) -> bool {
    status == Status::Exited(0u32)
}

impl Status {
    /// True exactly on a clean, zero-code termination.
    pub fn success(&self) -> (r: bool)
        ensures
            r == is_success(*self),
    {
        match self {
            Status::Exited(code) => *code == 0,
            _ => false,
        }
    }
}

/// A non-success process termination, carrying the raw status for display.
#[derive(Clone, Copy, Debug, PartialEq, Eq, Structural)]
pub struct ExitError(pub Status);

/// Everything that can go wrong when constructing or executing an invocation.
#[derive(Debug)]
pub enum CommandError {
    /// The invocation was constructed with zero arguments, or a reference
    /// string was empty; detected before any process is spawned.
    Config,
    /// The operating system could not create the child process; carries the
    /// underlying error text, prefixed with the invocation's message when one
    /// was set.
    Spawn(String),
    /// The process or pipeline terminated with a non-success status.
    Exit(ExitError),
}

/// Classifies a terminal status: a clean, zero-code exit is success, and any
/// other status becomes an `ExitError` carrying that status.
pub fn check_status(status: Status) -> (r: Result<(), ExitError>)
    ensures
        r is Ok <==> is_success(status),
        r matches Err(e) ==> e.0 == status,
{
    if status.success() {
        Ok(())
    } else {
        Err(ExitError(status))
    }
}

} // verus!
