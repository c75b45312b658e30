use vstd::prelude::*;
use crate::controller::Command;

verus! {

/// Everything that can make one reconciliation attempt fail.
#[derive(Debug, Clone, PartialEq, Eq)]
pub enum Error {
    /// A store call that reads or writes a child resource failed.
    Store { op: Command, message: String },
    /// Adding or removing the lifecycle marker failed.
    Lifecycle { op: Command, message: String },
    /// The reconciliation could not run at all.
    ControllerError(String),
}

impl Error {
    /// The error for a failed store call: a marker update is a lifecycle
    /// error, any other call a store error.
    pub fn from_store(op: Command, message: String) -> (r: Error)
        ensures
            op.touches_marker() ==> r == (Error::Lifecycle { op, message }),
            !op.touches_marker() ==> r == (Error::Store { op, message }),
    {
        match op {
            Command::AddMarker | Command::RemoveMarker => Error::Lifecycle { op, message },
            _ => Error::Store { op, message },
        }
    }

    /// The store call that failed, if a store call did.
    pub open spec fn failed_command(&self) -> Option<Command> {
        match self {
            Error::Store { op, .. } => Some(*op),
            Error::Lifecycle { op, .. } => Some(*op),
            Error::ControllerError(_) => None,
        }
    }

    /// The store call that failed, if a store call did.
    pub fn failed_op(&self) -> (r: Option<Command>)
        ensures
            r == self.failed_command(),
    {
        match self {
            Error::Store { op, .. } => Some(*op),
            Error::Lifecycle { op, .. } => Some(*op),
            Error::ControllerError(_) => None,
        }
    }
}

} // verus!
