//! The request/response protocol between the controller and its workers.
//!
//! A call is one request envelope answered by one response envelope. The
//! envelopes travel as JSON text inside a frame; this module holds their
//! shape and the four methods with their parameters and results.

pub mod client;
pub mod server;
pub mod wire;

use vstd::prelude::*;
use crate::error::{ErrorKind, UpmError};
use crate::text::str_eq;
use vstd::string::StringExecFns;

verus! {

/// A JSON value of `serde_json`, carried through as it is: the library never
/// looks inside one.
#[verifier::external_type_specification]
#[verifier::external_body]
pub struct ExValue(serde_json::Value);

/// The error code that every failure response carries.
pub const GENERIC_ERROR_CODE: i32 = 1;

/// The four methods that a worker serves.
#[derive(Debug, Clone, Copy, PartialEq, Eq, Structural)]
pub enum Method {
    Handshake,
    Update,
    Outdated,
    Upgrade,
}

impl Method {
    /// The name that stands for the method in a request.
    pub open spec fn name(self) -> Seq<char> {
        match self {
            Method::Handshake => "handshake"@,
            Method::Update => "update"@,
            Method::Outdated => "outdated"@,
            Method::Upgrade => "upgrade"@,
        }
    }

    /// The method that `name` stands for. Names match exactly or not at all.
    pub open spec fn named(name: Seq<char>) -> Option<Method> {
        if name == "handshake"@ {
            Some(Method::Handshake)
        } else if name == "update"@ {
            Some(Method::Update)
        } else if name == "outdated"@ {
            Some(Method::Outdated)
        } else if name == "upgrade"@ {
            Some(Method::Upgrade)
        } else {
            None
        }
    }

    pub fn as_str(self) -> (s: &'static str)
        ensures
            s@ == self.name(),
    {
        match self {
            Method::Handshake => "handshake",
            Method::Update => "update",
            Method::Outdated => "outdated",
            Method::Upgrade => "upgrade",
        }
    }

    pub fn from_name(name: &str) -> (m: Option<Method>)
        ensures
            m == Method::named(name@),
    {
        if str_eq(name, "handshake") {
            Some(Method::Handshake)
        } else if str_eq(name, "update") {
            Some(Method::Update)
        } else if str_eq(name, "outdated") {
            Some(Method::Outdated)
        } else if str_eq(name, "upgrade") {
            Some(Method::Upgrade)
        } else {
            None
        }
    }
}

/// Every method is found again by its own name, so no two methods share one.
pub proof fn lemma_method_found_by_name(m: Method)
    ensures
        Method::named(m.name()) == Some(m),
{
    reveal_strlit("handshake");
    reveal_strlit("update");
    reveal_strlit("outdated");
    reveal_strlit("upgrade");
    assert("handshake"@.len() == 9);
    assert("update"@.len() == 6);
    assert("outdated"@.len() == 8);
    assert("upgrade"@.len() == 7);
}

/// One kind of call: its parameters, its result and its method.
pub trait Request {
    type Params;

    type Result;

    spec fn method() -> Method;

    /// The method's name in a request.
    fn method_name() -> (name: &'static str)
        ensures
            name@ == Self::method().name(),
    ;
}

/// Asks a worker whether it runs with elevated privilege.
#[derive(Debug, Clone)]
pub struct Handshake;

impl Request for Handshake {
    type Params = HandeshakeParams;

    type Result = HandeshakeResult;

    open spec fn method() -> Method {
        Method::Handshake
    }

    fn method_name() -> (name: &'static str) {
        Method::Handshake.as_str()
    }
}

/// Parameters for the handshake request.
#[derive(Debug, Clone, Copy, PartialEq, Eq, Structural)]
pub struct HandeshakeParams {
    /// The caller's process id. Informational only.
    pub pid: u32,
}

/// Result for the handshake request.
#[derive(Debug, Clone, Copy, PartialEq, Eq, Structural)]
pub struct HandeshakeResult {
    /// Running in root privilege.
    pub privilige: bool,
}

/// Refreshes a backend's package index.
#[derive(Debug, Clone)]
pub struct Update;

impl Request for Update {
    type Params = UpdateParams;

    type Result = UpdateResult;

    open spec fn method() -> Method {
        Method::Update
    }

    fn method_name() -> (name: &'static str) {
        Method::Update.as_str()
    }
}

/// Parameters for the update request.
#[derive(Debug, Clone, PartialEq, Eq)]
pub struct UpdateParams {
    /// The name of backend.
    pub backend_name: String,
}

/// Result for the update request.
#[derive(Debug, Clone, Copy, PartialEq, Eq, Structural)]
pub struct UpdateResult {}

/// Lists a backend's packages that can be upgraded.
#[derive(Debug, Clone)]
pub struct Outdated;

impl Request for Outdated {
    type Params = OutdatedParams;

    type Result = OutdatedResult;

    open spec fn method() -> Method {
        Method::Outdated
    }

    fn method_name() -> (name: &'static str) {
        Method::Outdated.as_str()
    }
}

/// Parameters for the outdated request.
#[derive(Debug, Clone, PartialEq, Eq)]
pub struct OutdatedParams {
    /// The name of backend.
    pub backend_name: String,
}

/// Result for the outdated request.
#[derive(Debug, Clone, PartialEq, Eq)]
pub struct OutdatedResult {
    /// The outdated packages.
    pub pkgs: Vec<OutdateItem>,
}

/// Outdated item.
#[derive(Debug, Clone, PartialEq, Eq)]
pub struct OutdateItem {
    /// The name of package.
    pub name: String,
    /// The vendor of package.
    pub vendor: String,
    /// The current version of package.
    pub current_version: String,
    /// The target version of package.
    pub target_version: String,
}

/// The text that an outdated item holds.
pub struct OutdateItemView {
    pub name: Seq<char>,
    pub vendor: Seq<char>,
    pub current_version: Seq<char>,
    pub target_version: Seq<char>,
}

impl View for OutdateItem {
    type V = OutdateItemView;

    open spec fn view(&self) -> OutdateItemView {
        OutdateItemView {
            name: self.name@,
            vendor: self.vendor@,
            current_version: self.current_version@,
            target_version: self.target_version@,
        }
    }
}

impl View for OutdatedResult {
    type V = Seq<OutdateItemView>;

    open spec fn view(&self) -> Seq<OutdateItemView> {
        self.pkgs@.map_values(|item: OutdateItem| item@)
    }
}

/// Upgrades a backend's packages.
#[derive(Debug, Clone)]
pub struct Upgrade;

impl Request for Upgrade {
    type Params = UpgradeParams;

    type Result = UpgradeResult;

    open spec fn method() -> Method {
        Method::Upgrade
    }

    fn method_name() -> (name: &'static str) {
        Method::Upgrade.as_str()
    }
}

/// Parameters for the upgrade request.
#[derive(Debug, Clone, PartialEq, Eq)]
pub struct UpgradeParams {
    /// The name of backend.
    pub backend_name: String,
}

/// Result for the upgrade request.
#[derive(Debug, Clone, Copy, PartialEq, Eq, Structural)]
pub struct UpgradeResult {}

/// The request envelope: a method name and the method's parameters.
#[derive(Debug)]
pub struct RpcRequest {
    pub method: String,
    pub params: Option<serde_json::Value>,
}

/// The failure half of a response: a code, a message for the user and
/// optional detail.
#[derive(Debug)]
pub struct RpcError {
    pub code: i32,
    pub message: String,
    pub data: Option<serde_json::Value>,
}

/// A response is a result or an error, never both.
#[derive(Debug)]
pub enum RpcResponseKind {
    Success { result: serde_json::Value },
    Failure { error: RpcError },
}

/// The response envelope.
#[derive(Debug)]
pub struct RpcResponse {
    pub kind: RpcResponseKind,
}

/// The message of the error for a method name that no method has.
pub open spec fn unknown_method_text(name: Seq<char>) -> Seq<char> {
    "unknown method '"@ + name + "'."@
}

impl RpcRequest {
    /// The request for a call of `method` with `params`.
    pub fn new(method: Method, params: serde_json::Value) -> (r: RpcRequest)
        ensures
            r.method@ == method.name(),
            r.params == Some(params),
    {
        RpcRequest { method: String::from_str(method.as_str()), params: Some(params) }
    }

    /// The request for a call of the kind `R` with `params`.
    pub fn of<R: Request>(params: serde_json::Value) -> (r: RpcRequest)
        ensures
            r.method@ == R::method().name(),
            r.params == Some(params),
    {
        RpcRequest { method: String::from_str(R::method_name()), params: Some(params) }
    }

    /// The method that the request names. A name that no method has is a
    /// dispatch error that quotes the name.
    pub fn target(&self) -> (r: Result<Method, UpmError>)
        ensures
            match Method::named(self.method@) {
                Some(m) => r == Ok::<Method, UpmError>(m),
                None => r matches Err(e) && e.says(
                    ErrorKind::Dispatch,
                    unknown_method_text(self.method@),
                ),
            },
    {
        match Method::from_name(self.method.as_str()) {
            Some(m) => Ok(m),
            None => {
                let mut message = String::from_str("unknown method '");
                message.append(self.method.as_str());
                message.append("'.");
                Err(UpmError { kind: ErrorKind::Dispatch, message })
            },
        }
    }

    /// The parameters of the request. A request without parameters is
    /// malformed.
    pub fn into_params(self) -> (r: Result<serde_json::Value, UpmError>)
        ensures
            match self.params {
                Some(v) => r == Ok::<serde_json::Value, UpmError>(v),
                None => r matches Err(e) && e.says(ErrorKind::Protocol, "missing params."@),
            },
    {
        match self.params {
            Some(v) => Ok(v),
            None => Err(UpmError::new(ErrorKind::Protocol, "missing params.")),
        }
    }
}

impl RpcError {
    /// The failure that carries `message`, with the generic code and no
    /// detail.
    pub open spec fn generic(message: String) -> RpcError {
        RpcError { code: GENERIC_ERROR_CODE, message, data: None }
    }
}

impl RpcResponse {
    /// The response that answers a call that ended with `result`: success
    /// wraps the value, failure wraps the error's message.
    pub open spec fn answering(result: Result<serde_json::Value, UpmError>) -> RpcResponse {
        match result {
            Ok(value) => RpcResponse { kind: RpcResponseKind::Success { result: value } },
            Err(e) => RpcResponse {
                kind: RpcResponseKind::Failure { error: RpcError::generic(e.message) },
            },
        }
    }

    /// What the caller gets from the response: the result, or an
    /// application error with the server's message.
    pub open spec fn outcome(self) -> Result<serde_json::Value, UpmError> {
        match self.kind {
            RpcResponseKind::Success { result } => Ok(result),
            RpcResponseKind::Failure { error } => Err(
                UpmError { kind: ErrorKind::Application, message: error.message },
            ),
        }
    }

    /// Whether the response reports a failure.
    pub fn is_failure(&self) -> (b: bool)
        ensures
            b == (self.kind is Failure),
    {
        match &self.kind {
            RpcResponseKind::Success { .. } => false,
            RpcResponseKind::Failure { .. } => true,
        }
    }

    /// Turns the response into what the caller of the method gets.
    pub fn into_result(self) -> (r: Result<serde_json::Value, UpmError>)
        ensures
            r == self.outcome(),
    {
        match self.kind {
            RpcResponseKind::Success { result } => Ok(result),
            RpcResponseKind::Failure { error } => Err(
                UpmError { kind: ErrorKind::Application, message: error.message },
            ),
        }
    }
}

/// A successful call comes back to the caller with the same value, and a
/// failed one with the same message.
pub proof fn lemma_response_round_trip(result: Result<serde_json::Value, UpmError>)
    ensures
        match result {
            Ok(value) => RpcResponse::answering(result).outcome() == Ok::<
                serde_json::Value,
                UpmError,
            >(value),
            Err(e) => RpcResponse::answering(result).outcome() == Err::<
                serde_json::Value,
                UpmError,
            >(UpmError { kind: ErrorKind::Application, message: e.message }),
        },
{
}

} // verus!
