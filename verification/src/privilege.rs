//! Which operations need elevated privilege, and whether the process has it.

use vstd::prelude::*;
use crate::error::{ErrorKind, UpmError};
use crate::rpc::Method;

verus! {

/// The operations that a backend offers.
#[derive(Debug, Clone, Copy, PartialEq, Eq, Structural)]
pub enum Operation {
    Update,
    Outdated,
    Upgrade,
}

/// For each operation of a backend, whether it needs root privilege.
#[derive(Debug, Clone, Copy, PartialEq, Eq, Structural)]
pub struct MethodPrivilege {
    /// The update() method requires root privilege.
    pub update: bool,
    /// The outdated() method requires root privilege.
    pub outdated: bool,
    /// The upgrade() method requires root privilege.
    pub upgrade: bool,
}

/// What probing a backend's native tool found.
#[derive(Debug, Clone, Copy, PartialEq, Eq, Structural)]
pub enum BackendSetup {
    /// The native tool is absent: every operation on the backend is skipped.
    NotInstalled,
    /// The native tool is there, with these needs.
    Installed(MethodPrivilege),
}

impl Operation {
    /// The method that carries the operation to a worker.
    pub open spec fn method(self) -> Method {
        match self {
            Operation::Update => Method::Update,
            Operation::Outdated => Method::Outdated,
            Operation::Upgrade => Method::Upgrade,
        }
    }
}

impl MethodPrivilege {
    /// Whether `op` needs root privilege: the flag of that operation, and no
    /// other.
    pub open spec fn needs_root(self, op: Operation) -> bool {
        match op {
            Operation::Update => self.update,
            Operation::Outdated => self.outdated,
            Operation::Upgrade => self.upgrade,
        }
    }

    pub fn requires_root(&self, op: Operation) -> (b: bool)
        ensures
            b == self.needs_root(op),
    {
        match op {
            Operation::Update => self.update,
            Operation::Outdated => self.outdated,
            Operation::Upgrade => self.upgrade,
        }
    }
}

/// Asks the system for the effective user of this process, with
/// `nix::unistd::geteuid`, and whether that user is root, with
/// `Uid::is_root`. The answer depends on how the process was started, so
/// nothing is claimed of it.
#[verifier::external_body]
pub(crate) fn effective_user_is_root() -> bool {
    nix::unistd::geteuid().is_root()
}

/// Asks the system for the id of this process, with `nix::unistd::getpid`
/// and `Pid::as_raw`. Nothing is claimed of the number.
#[verifier::external_body]
pub(crate) fn current_process_id() -> u32 {
    nix::unistd::getpid().as_raw() as u32
}

/// The message for a command that needs root and does not have it.
pub open spec fn privilege_required_text() -> Seq<char> {
    "This command requires root privilege."@
}

/// The message for a command that must not run as root and does.
pub open spec fn privilege_rejected_text() -> Seq<char> {
    "This command does not require root privilege."@
}

/// Passes a privileged process and refuses a plain one.
pub fn require_privilege_of(is_root: bool) -> (r: Result<(), UpmError>)
    ensures
        is_root ==> r is Ok,
        !is_root ==> (r matches Err(e) && e.says(ErrorKind::Privilege, privilege_required_text())),
{
    if !is_root {
        return Err(UpmError::new(ErrorKind::Privilege, "This command requires root privilege."));
    }
    Ok(())
}

/// Passes a plain process and refuses a privileged one.
pub fn reject_privilege_of(is_root: bool) -> (r: Result<(), UpmError>)
    ensures
        !is_root ==> r is Ok,
        is_root ==> (r matches Err(e) && e.says(ErrorKind::Privilege, privilege_rejected_text())),
{
    if is_root {
        return Err(
            UpmError::new(ErrorKind::Privilege, "This command does not require root privilege."),
        );
    }
    Ok(())
}

/// The id of this process, as the handshake sends it.
pub fn process_id() -> u32 {
    current_process_id()
}

/// Check if the current user is root. The only error is the one that says
/// that root privilege is required.
pub fn require_privilege() -> (r: Result<(), UpmError>)
    ensures
        r matches Err(e) ==> e.says(ErrorKind::Privilege, privilege_required_text()),
{
    require_privilege_of(effective_user_is_root())
}

/// Check if the current user is not root. The only error is the one that
/// says that root privilege is not wanted.
pub fn reject_privilege() -> (r: Result<(), UpmError>)
    ensures
        r matches Err(e) ==> e.says(ErrorKind::Privilege, privilege_rejected_text()),
{
    reject_privilege_of(effective_user_is_root())
}

} // verus!
