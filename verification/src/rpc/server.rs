//! The worker's side of a session: one request in, one response out.

use vstd::prelude::*;
use crate::error::{ErrorKind, UpmError};
use crate::rpc::wire::{
    be32, encode_frame, frame, lemma_be32_value_of_be32, magic, FrameReader, ReaderView,
    WireFault,
};
use crate::rpc::{
    unknown_method_text, HandeshakeParams, HandeshakeResult, Method, OutdatedParams,
    OutdatedResult, RpcError, RpcRequest, RpcResponse, RpcResponseKind, UpdateParams,
    UpdateResult, UpgradeParams, UpgradeResult, GENERIC_ERROR_CODE,
};

verus! {

/// What a worker offers: the four methods. An implementation says nothing
/// here about its results; the server hands them back as they come.
pub trait Router {
    /// Handshake request.
    fn handshake(&self, params: HandeshakeParams) -> Result<HandeshakeResult, UpmError>;

    /// Update request.
    fn update(&self, params: UpdateParams) -> Result<UpdateResult, UpmError>;

    /// Get outdated packages.
    fn outdated(&self, params: OutdatedParams) -> Result<OutdatedResult, UpmError>;

    /// Upgrade packages.
    fn upgrade(&self, params: UpgradeParams) -> Result<UpgradeResult, UpmError>;
}

/// A call with its parameters.
#[derive(Debug, Clone, PartialEq, Eq)]
pub enum Call {
    Handshake(HandeshakeParams),
    Update(UpdateParams),
    Outdated(OutdatedParams),
    Upgrade(UpgradeParams),
}

/// The result of a call.
#[derive(Debug, Clone, PartialEq, Eq)]
pub enum Reply {
    Handshake(HandeshakeResult),
    Update(UpdateResult),
    Outdated(OutdatedResult),
    Upgrade(UpgradeResult),
}

impl Call {
    pub open spec fn method(self) -> Method {
        match self {
            Call::Handshake(_) => Method::Handshake,
            Call::Update(_) => Method::Update,
            Call::Outdated(_) => Method::Outdated,
            Call::Upgrade(_) => Method::Upgrade,
        }
    }

    /// The backend that the call names; none for a handshake.
    pub open spec fn backend_name(self) -> Option<Seq<char>> {
        match self {
            Call::Handshake(_) => None,
            Call::Update(p) => Some(p.backend_name@),
            Call::Outdated(p) => Some(p.backend_name@),
            Call::Upgrade(p) => Some(p.backend_name@),
        }
    }

    /// The method that the call is for.
    pub fn target(&self) -> (m: Method)
        ensures
            m == self.method(),
    {
        match self {
            Call::Handshake(_) => Method::Handshake,
            Call::Update(_) => Method::Update,
            Call::Outdated(_) => Method::Outdated,
            Call::Upgrade(_) => Method::Upgrade,
        }
    }
}

impl Reply {
    pub open spec fn method(self) -> Method {
        match self {
            Reply::Handshake(_) => Method::Handshake,
            Reply::Update(_) => Method::Update,
            Reply::Outdated(_) => Method::Outdated,
            Reply::Upgrade(_) => Method::Upgrade,
        }
    }

    /// The method that the reply answers.
    pub fn target(&self) -> (m: Method)
        ensures
            m == self.method(),
    {
        match self {
            Reply::Handshake(_) => Method::Handshake,
            Reply::Update(_) => Method::Update,
            Reply::Outdated(_) => Method::Outdated,
            Reply::Upgrade(_) => Method::Upgrade,
        }
    }

    /// What a handshake that the router answered with `answer` comes to:
    /// the router's result as a reply, or the router's error as it is.
    pub fn of_handshake(answer: Result<HandeshakeResult, UpmError>) -> (r: Result<Reply, UpmError>)
        ensures
            r == (match answer {
                Ok(result) => Ok::<Reply, UpmError>(Reply::Handshake(result)),
                Err(e) => Err::<Reply, UpmError>(e),
            }),
    {
        match answer {
            Ok(result) => Ok(Reply::Handshake(result)),
            Err(e) => Err(e),
        }
    }

    /// What an update that the router answered with `answer` comes to: the
    /// router's result as a reply, or the router's error as it is.
    pub fn of_update(answer: Result<UpdateResult, UpmError>) -> (r: Result<Reply, UpmError>)
        ensures
            r == (match answer {
                Ok(result) => Ok::<Reply, UpmError>(Reply::Update(result)),
                Err(e) => Err::<Reply, UpmError>(e),
            }),
    {
        match answer {
            Ok(result) => Ok(Reply::Update(result)),
            Err(e) => Err(e),
        }
    }

    /// What a listing of outdated packages that the router answered with
    /// `answer` comes to: the router's result as a reply, or the router's
    /// error as it is.
    pub fn of_outdated(answer: Result<OutdatedResult, UpmError>) -> (r: Result<Reply, UpmError>)
        ensures
            r == (match answer {
                Ok(result) => Ok::<Reply, UpmError>(Reply::Outdated(result)),
                Err(e) => Err::<Reply, UpmError>(e),
            }),
    {
        match answer {
            Ok(result) => Ok(Reply::Outdated(result)),
            Err(e) => Err(e),
        }
    }

    /// What an upgrade that the router answered with `answer` comes to: the
    /// router's result as a reply, or the router's error as it is.
    pub fn of_upgrade(answer: Result<UpgradeResult, UpmError>) -> (r: Result<Reply, UpmError>)
        ensures
            r == (match answer {
                Ok(result) => Ok::<Reply, UpmError>(Reply::Upgrade(result)),
                Err(e) => Err::<Reply, UpmError>(e),
            }),
    {
        match answer {
            Ok(result) => Ok(Reply::Upgrade(result)),
            Err(e) => Err(e),
        }
    }
}

/// What a reply or an error is made of a router's answer: the result as a
/// reply of its method, the error as it is.
pub open spec fn handshake_reply(answer: Result<HandeshakeResult, UpmError>) -> Result<
    Reply,
    UpmError,
> {
    match answer {
        Ok(result) => Ok(Reply::Handshake(result)),
        Err(e) => Err(e),
    }
}

pub open spec fn update_reply(answer: Result<UpdateResult, UpmError>) -> Result<Reply, UpmError> {
    match answer {
        Ok(result) => Ok(Reply::Update(result)),
        Err(e) => Err(e),
    }
}

pub open spec fn outdated_reply(answer: Result<OutdatedResult, UpmError>) -> Result<
    Reply,
    UpmError,
> {
    match answer {
        Ok(result) => Ok(Reply::Outdated(result)),
        Err(e) => Err(e),
    }
}

pub open spec fn upgrade_reply(answer: Result<UpgradeResult, UpmError>) -> Result<
    Reply,
    UpmError,
> {
    match answer {
        Ok(result) => Ok(Reply::Upgrade(result)),
        Err(e) => Err(e),
    }
}

/// `r` is what comes of handing `call` to `router`: the router's method of
/// the call's name was given the call's parameters, and `r` is made of an
/// answer that this method can give to them.
pub open spec fn dispatched<R: Router>(router: &R, call: Call, r: Result<Reply, UpmError>) -> bool {
    match call {
        Call::Handshake(params) => exists|answer: Result<HandeshakeResult, UpmError>|
            #[trigger] call_ensures(R::handshake, (router, params), answer) && r
                == handshake_reply(answer),
        Call::Update(params) => exists|answer: Result<UpdateResult, UpmError>|
            #[trigger] call_ensures(R::update, (router, params), answer) && r == update_reply(
                answer,
            ),
        Call::Outdated(params) => exists|answer: Result<OutdatedResult, UpmError>|
            #[trigger] call_ensures(R::outdated, (router, params), answer) && r == outdated_reply(
                answer,
            ),
        Call::Upgrade(params) => exists|answer: Result<UpgradeResult, UpmError>|
            #[trigger] call_ensures(R::upgrade, (router, params), answer) && r == upgrade_reply(
                answer,
            ),
    }
}

/// Hands `call` to the router's method of the same name, with the call's
/// parameters. Whether the call succeeds is the router's to decide; what
/// comes back is made of the router's answer. A reply is always one for the
/// method called.
pub fn dispatch<R: Router>(router: &R, call: Call) -> (r: Result<Reply, UpmError>)
    ensures
        dispatched(router, call, r),
        r matches Ok(reply) ==> reply.method() == call.method(),
{
    match call {
        Call::Handshake(params) => Reply::of_handshake(router.handshake(params)),
        Call::Update(params) => Reply::of_update(router.update(params)),
        Call::Outdated(params) => Reply::of_outdated(router.outdated(params)),
        Call::Upgrade(params) => Reply::of_upgrade(router.upgrade(params)),
    }
}

/// Wraps the end of a call into the response envelope: a result becomes a
/// success, an error becomes a failure with the generic code, the error's
/// message and no detail.
pub fn convert_result_to_response(result: Result<serde_json::Value, UpmError>) -> (r: RpcResponse)
    ensures
        r == RpcResponse::answering(result),
{
    match result {
        Ok(value) => RpcResponse { kind: RpcResponseKind::Success { result: value } },
        Err(e) => RpcResponse {
            kind: RpcResponseKind::Failure {
                error: RpcError { code: GENERIC_ERROR_CODE, message: e.message, data: None },
            },
        },
    }
}

/// What a request turns out to be.
#[derive(Debug)]
pub enum Screening {
    /// A call of a known method, with its parameters still to be read.
    Call { method: Method, params: serde_json::Value },
    /// A request that is answered without a call.
    Answer(RpcResponse),
}

/// Looks at a request before anything is called. A request for a method that is not known is answered
/// with a failure that quotes the method's name; the session goes on. A
/// request for a known method without parameters is malformed, which ends
/// the session.
pub fn screen(request: RpcRequest) -> (r: Result<Screening, UpmError>)
    ensures
        match Method::named(request.method@) {
            None => r matches Ok(Screening::Answer(response)) && response.kind matches RpcResponseKind::Failure {
                error,
            } && error.code == GENERIC_ERROR_CODE && error.message@ == unknown_method_text(
                request.method@,
            ) && error.data is None,
            Some(method) => match request.params {
                Some(params) => r == Ok::<Screening, UpmError>(Screening::Call { method, params }),
                None => r matches Err(e) && e.says(ErrorKind::Protocol, "missing params."@),
            },
        },
{
    match request.target() {
        Err(e) => Ok(Screening::Answer(convert_result_to_response(Err(e)))),
        Ok(method) => match request.into_params() {
            Ok(params) => Ok(Screening::Call { method, params }),
            Err(e) => Err(e),
        },
    }
}

/// Where a server stands in its one session.
pub enum ServerView {
    /// The request frame is being read.
    Receiving { reader: ReaderView },
    /// The request is complete and waits for its response.
    Dispatching,
    /// The response was framed. The session is over.
    Finished,
    /// The session broke. Nothing more is read or written.
    Failed,
}

#[derive(Debug)]
pub enum ServerState {
    Receiving { reader: FrameReader },
    Dispatching,
    Finished,
    Failed,
}

/// One session of a worker: it takes in exactly one request frame and gives
/// out exactly one response frame. The caller moves the bytes.
#[derive(Debug)]
pub struct Server {
    pub state: ServerState,
}

impl View for Server {
    type V = ServerView;

    open spec fn view(&self) -> ServerView {
        match self.state {
            ServerState::Receiving { reader } => ServerView::Receiving { reader: reader@ },
            ServerState::Dispatching => ServerView::Dispatching,
            ServerState::Finished => ServerView::Finished,
            ServerState::Failed => ServerView::Failed,
        }
    }
}

impl ServerView {
    /// The number of bytes to read from the stream next.
    pub open spec fn wanted(self) -> nat {
        match self {
            ServerView::Receiving { reader } => reader.wanted(),
            _ => 0,
        }
    }

    /// The state after `bytes` were handed in.
    pub open spec fn receive(self, bytes: Seq<u8>) -> ServerView {
        match self {
            ServerView::Receiving { reader } => if reader.fault(bytes) is Some {
                ServerView::Failed
            } else {
                match reader.accept(bytes) {
                    ReaderView::Done { .. } => ServerView::Dispatching,
                    next => ServerView::Receiving { reader: next },
                }
            },
            _ => self,
        }
    }

    /// The fault that `bytes` meet in this state, if any.
    pub open spec fn fault(self, bytes: Seq<u8>) -> Option<WireFault> {
        match self {
            ServerView::Receiving { reader } => reader.fault(bytes),
            _ => Some(WireFault::NotExpected),
        }
    }

    /// The request payload that `bytes` complete, if they complete one.
    pub open spec fn completed(self, bytes: Seq<u8>) -> Option<Seq<u8>> {
        match self {
            ServerView::Receiving { reader } => match reader.accept(bytes) {
                ReaderView::Done { payload } if reader.fault(bytes) is None => Some(payload),
                _ => None,
            },
            _ => None,
        }
    }
}

impl Server {
    /// Create a new session server, at the start of the request frame.
    pub fn new() -> (s: Server)
        ensures
            s@ == (ServerView::Receiving { reader: ReaderView::Magic }),
    {
        Server { state: ServerState::Receiving { reader: FrameReader::new() } }
    }

    /// The number of bytes to read from the stream and hand in next.
    pub fn wanted(&self) -> (n: usize)
        ensures
            n as nat == self@.wanted(),
    {
        match &self.state {
            ServerState::Receiving { reader } => reader.wanted(),
            _ => 0,
        }
    }

    /// Whether the server waits for bytes of the request.
    pub fn is_receiving(&self) -> (b: bool)
        ensures
            b == (self@ is Receiving),
    {
        match &self.state {
            ServerState::Receiving { .. } => true,
            _ => false,
        }
    }

    /// Takes in bytes of the request frame. Gives the request's payload once
    /// the frame is complete. A fault ends the session.
    pub fn receive(&mut self, bytes: &[u8]) -> (r: Result<Option<Vec<u8>>, UpmError>)
        ensures
            final(self)@ == old(self)@.receive(bytes@),
            match old(self)@.fault(bytes@) {
                Some(fault) => r matches Err(e) && e.says(fault.kind(), fault.text()),
                None => match old(self)@.completed(bytes@) {
                    Some(payload) => r matches Ok(Some(p)) && p@ == payload,
                    None => r matches Ok(None),
                },
            },
    {
        let mut state = ServerState::Failed;
        core::mem::swap(&mut self.state, &mut state);
        match state {
            ServerState::Receiving { reader } => {
                let mut reader = reader;
                match reader.accept(bytes) {
                    Err(fault) => {
                        self.state = ServerState::Failed;
                        Err(fault.to_error())
                    },
                    Ok(()) => {
                        if reader.is_reading() {
                            self.state = ServerState::Receiving { reader };
                            Ok(None)
                        } else {
                            self.state = ServerState::Dispatching;
                            Ok(reader.into_payload())
                        }
                    },
                }
            },
            other => {
                self.state = other;
                Err(WireFault::NotExpected.to_error())
            },
        }
    }

    /// Whether the request is complete and waits for its response.
    pub fn is_dispatching(&self) -> (b: bool)
        ensures
            b == (self@ is Dispatching),
    {
        match &self.state {
            ServerState::Dispatching => true,
            _ => false,
        }
    }

    /// Serve the request: hands the call to the router, once the request is
    /// complete. Before that, and after the response, nothing is called.
    pub fn serve<R: Router>(&self, router: &R, call: Call) -> (r: Result<Reply, UpmError>)
        ensures
            !(self@ is Dispatching) ==> (r matches Err(e) && e.says(
                ErrorKind::Protocol,
                "no request to serve."@,
            )),
            self@ is Dispatching ==> dispatched(router, call, r),
            r matches Ok(reply) ==> reply.method() == call.method(),
    {
        if !self.is_dispatching() {
            return Err(UpmError::new(ErrorKind::Protocol, "no request to serve."));
        }
        dispatch(router, call)
    }

    /// Frames the response. This ends the session: a server answers once.
    pub fn respond(&mut self, payload: &[u8]) -> (r: Result<Vec<u8>, UpmError>)
        ensures
            match old(self)@ {
                ServerView::Dispatching => if payload@.len() <= u32::MAX {
                    &&& r matches Ok(bytes) && bytes@ == frame(payload@)
                    &&& final(self)@ == ServerView::Finished
                } else {
                    &&& r matches Err(e) && e.says(
                        WireFault::TooLarge.kind(),
                        WireFault::TooLarge.text(),
                    )
                    &&& final(self)@ == ServerView::Failed
                },
                _ => {
                    &&& r matches Err(e) && e.says(ErrorKind::Protocol, "no response expected."@)
                    &&& final(self)@ == old(self)@
                },
            },
    {
        if !self.is_dispatching() {
            return Err(UpmError::new(ErrorKind::Protocol, "no response expected."));
        }
        match encode_frame(payload) {
            Ok(bytes) => {
                self.state = ServerState::Finished;
                Ok(bytes)
            },
            Err(fault) => {
                self.state = ServerState::Failed;
                Err(fault.to_error())
            },
        }
    }
}

/// A server that is handed the three pieces of a framed request, one after
/// the other, has the request's payload and waits for its response.
pub proof fn lemma_server_takes_request(payload: Seq<u8>)
    requires
        payload.len() <= u32::MAX,
    ensures
        ({
            let s0 = ServerView::Receiving { reader: ReaderView::Magic };
            let s1 = s0.receive(magic());
            let s2 = s1.receive(be32(payload.len()));
            &&& s0.wanted() == 4 && s0.fault(magic()) is None && s0.completed(magic()) is None
            &&& s1.wanted() == 4 && s1.fault(be32(payload.len())) is None && s1.completed(
                be32(payload.len()),
            ) is None
            &&& s2.wanted() == payload.len() && s2.fault(payload) is None
            &&& s2.completed(payload) == Some(payload)
            &&& s2.receive(payload) == ServerView::Dispatching
        }),
{
    lemma_be32_value_of_be32(payload.len());
}

} // verus!
