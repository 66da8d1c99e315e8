//! A front-end over several native package managers that keeps privileged
//! and unprivileged work in two separate worker processes.
//!
//! The controller talks to each worker over a private loopback socket with a
//! small framed protocol, finds out which worker holds elevated privilege by
//! a handshake, and sends every operation to the worker that the backend's
//! capability record asks for.
//!
//! This crate holds the rules: framing, envelopes, the session state
//! machines, the backend registry with its capability cache, role assignment
//! and routing. Sockets and processes are driven from outside.

pub mod backend;
pub mod error;
pub mod host;
pub mod json;
pub mod lifecycle;
pub mod name_map;
pub mod privilege;
pub mod registry;
pub mod rpc;
pub mod text;
pub mod tui;
pub mod worker;

pub use privilege::{reject_privilege, require_privilege, BackendSetup, MethodPrivilege};
pub use registry::{UpmBackend, WorkerRouter};
