//! The errors that the library reports.

use vstd::prelude::*;
use vstd::string::StringExecFns;

verus! {

/// What went wrong, by the way the failure has to be handled.
#[derive(Debug, Clone, Copy, PartialEq, Eq, Structural)]
pub enum ErrorKind {
    /// Socket I/O failed or the stream ended early. Fatal to the session.
    Transport,
    /// A frame broke the wire format. Fatal to the session.
    Protocol,
    /// A method or backend name is not known. Reported to the caller.
    Dispatch,
    /// A backend could not do what was asked. Reported as it is.
    Backend,
    /// The two workers do not hold one privileged and one plain role.
    Invariant,
    /// The process does not run with the privilege that a command needs.
    Privilege,
    /// A worker answered a call with a failure; the message is the worker's.
    Application,
}

/// An error with its kind and the message shown to the user.
#[derive(Debug, Clone, PartialEq, Eq)]
pub struct UpmError {
    pub kind: ErrorKind,
    pub message: String,
}

impl UpmError {
    /// The error has the given kind and message text.
    pub open spec fn says(self, kind: ErrorKind, message: Seq<char>) -> bool {
        self.kind == kind && self.message@ == message
    }

    pub fn new(kind: ErrorKind, message: &str) -> (e: UpmError)
        ensures
            e.says(kind, message@),
    {
        UpmError { kind, message: String::from_str(message) }
    }

    /// A copy with the same kind and message.
    pub fn duplicate(&self) -> (e: UpmError)
        ensures
            e == *self,
    {
        UpmError { kind: self.kind, message: self.message.clone() }
    }

    pub fn kind(&self) -> (k: ErrorKind)
        ensures
            k == self.kind,
    {
        self.kind
    }

    /// The message, as it is shown to the user.
    pub fn to_string(&self) -> (s: String)
        ensures
            s@ == self.message@,
    {
        self.message.clone()
    }
}

} // verus!
