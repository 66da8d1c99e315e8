//! The worker: where it connects to, and how it is told.

use vstd::prelude::*;
use vstd::string::StringExecFns;
use crate::text::{decimal_text, push_decimal};

verus! {

/// The address of a controller that listens on `port`: the loopback
/// address and the port.
pub open spec fn controller_address(port: u16) -> Seq<char> {
    "127.0.0.1:"@ + decimal_text(port as nat)
}

/// The command line flag that tells a process to be a worker for the
/// controller on `port`.
pub open spec fn worker_flag(port: u16) -> Seq<char> {
    "--worker="@ + decimal_text(port as nat)
}

/// The address that a worker connects back to.
pub fn worker_address(port: u16) -> (addr: String)
    ensures
        addr@ == controller_address(port),
{
    let mut addr = String::from_str("127.0.0.1:");
    push_decimal(&mut addr, port);
    addr
}

/// The argument that starts a worker for the controller on `port`.
pub fn worker_arg(port: u16) -> (arg: String)
    ensures
        arg@ == worker_flag(port),
{
    let mut arg = String::from_str("--worker=");
    push_decimal(&mut arg, port);
    arg
}

} // verus!
