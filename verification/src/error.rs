//! Failures that an operation reports to its caller.

use vstd::prelude::*;

verus! {

/// Which step of an operation failed.
#[derive(Clone, Copy, Debug, PartialEq, Eq, Structural)]
pub enum ErrorKind {
    /// A text does not hold a preferences record.
    Serialization,
    /// A file could not be opened, written or appended to.
    Io,
    /// The notification facility of the system refused the request.
    Notification,
}

/// A failed operation: the step that failed and the message it gave.
#[derive(Debug)]
pub struct Failure {
    pub kind: ErrorKind,
    pub message: String,
}

impl Failure {
    /// The message alone, as the caller of an operation receives it.
    pub fn into_message(self) -> (m: String)
        ensures
            m@ == self.message@,
    {
        self.message
    }
}

/// Turns what a step gave into the operation's own result: success stays
/// success, a message becomes a failure of the given kind with that message.
pub fn step_result(kind: ErrorKind, outcome: Result<(), String>) -> (r: Result<(), Failure>)
    ensures
        outcome is Ok <==> r is Ok,
        outcome is Err ==> r->Err_0.kind == kind && r->Err_0.message@ == outcome->Err_0@,
{
    match outcome {
        Ok(()) => Ok(()),
        Err(message) => Err(Failure { kind, message }),
    }
}

} // verus!
