//! The controller's side of a connection: one call at a time.

use vstd::prelude::*;
use crate::error::{ErrorKind, UpmError};
use crate::rpc::wire::{
    be32, encode_frame, frame, lemma_be32_value_of_be32, magic, FrameReader, ReaderView,
    WireFault,
};

verus! {

/// Where a client stands.
pub enum ClientView {
    /// No call is under way.
    Idle,
    /// A request was framed; the response frame is being read.
    Awaiting { reader: ReaderView },
    /// The connection was shut down, or broke. No call can be made.
    Closed,
}

#[derive(Debug)]
pub enum ClientState {
    Idle,
    Awaiting { reader: FrameReader },
    Closed,
}

/// A connection to one worker. It carries one call at a time: the next can
/// begin only when the response of the one before is complete. The caller
/// moves the bytes.
#[derive(Debug)]
pub struct Client {
    pub state: ClientState,
}

impl View for Client {
    type V = ClientView;

    open spec fn view(&self) -> ClientView {
        match self.state {
            ClientState::Idle => ClientView::Idle,
            ClientState::Awaiting { reader } => ClientView::Awaiting { reader: reader@ },
            ClientState::Closed => ClientView::Closed,
        }
    }
}

impl ClientView {
    /// The number of bytes to read from the stream next.
    pub open spec fn wanted(self) -> nat {
        match self {
            ClientView::Awaiting { reader } => reader.wanted(),
            _ => 0,
        }
    }

    /// The state after `bytes` of the response were handed in. A fault
    /// closes the connection.
    pub open spec fn receive(self, bytes: Seq<u8>) -> ClientView {
        match self {
            ClientView::Awaiting { reader } => if reader.fault(bytes) is Some {
                ClientView::Closed
            } else {
                match reader.accept(bytes) {
                    ReaderView::Done { .. } => ClientView::Idle,
                    next => ClientView::Awaiting { reader: next },
                }
            },
            _ => self,
        }
    }

    /// The response payload that `bytes` complete, if they complete one.
    pub open spec fn completed(self, bytes: Seq<u8>) -> Option<Seq<u8>> {
        match self {
            ClientView::Awaiting { reader } => match reader.accept(bytes) {
                ReaderView::Done { payload } if reader.fault(bytes) is None => Some(payload),
                _ => None,
            },
            _ => None,
        }
    }
}

impl Client {
    /// Create a new session client, with no call under way.
    pub fn new() -> (c: Client)
        ensures
            c@ == ClientView::Idle,
    {
        Client { state: ClientState::Idle }
    }

    /// Call the request: frames the request's payload for sending and waits
    /// for the response from then on. Refused while another call is under
    /// way, and after the connection has been closed.
    pub fn call(&mut self, payload: &[u8]) -> (r: Result<Vec<u8>, UpmError>)
        ensures
            match old(self)@ {
                ClientView::Idle => if payload@.len() <= u32::MAX {
                    &&& r matches Ok(bytes) && bytes@ == frame(payload@)
                    &&& final(self)@ == (ClientView::Awaiting { reader: ReaderView::Magic })
                } else {
                    &&& r matches Err(e) && e.says(
                        WireFault::TooLarge.kind(),
                        WireFault::TooLarge.text(),
                    )
                    &&& final(self)@ == ClientView::Idle
                },
                ClientView::Awaiting { .. } => {
                    &&& r matches Err(e) && e.says(ErrorKind::Protocol, "call in progress."@)
                    &&& final(self)@ == old(self)@
                },
                ClientView::Closed => {
                    &&& r matches Err(e) && e.says(ErrorKind::Transport, "connection closed."@)
                    &&& final(self)@ == ClientView::Closed
                },
            },
    {
        match &self.state {
            ClientState::Idle => {},
            ClientState::Awaiting { .. } => {
                return Err(UpmError::new(ErrorKind::Protocol, "call in progress."));
            },
            ClientState::Closed => {
                return Err(UpmError::new(ErrorKind::Transport, "connection closed."));
            },
        }
        match encode_frame(payload) {
            Ok(bytes) => {
                self.state = ClientState::Awaiting { reader: FrameReader::new() };
                Ok(bytes)
            },
            Err(fault) => Err(fault.to_error()),
        }
    }

    /// The number of bytes to read from the stream and hand in next.
    pub fn wanted(&self) -> (n: usize)
        ensures
            n as nat == self@.wanted(),
    {
        match &self.state {
            ClientState::Awaiting { reader } => reader.wanted(),
            _ => 0,
        }
    }

    /// Whether a response is being waited for.
    pub fn is_awaiting(&self) -> (b: bool)
        ensures
            b == (self@ is Awaiting),
    {
        match &self.state {
            ClientState::Awaiting { .. } => true,
            _ => false,
        }
    }

    /// Takes in bytes of the response frame. Gives the response's payload
    /// once the frame is complete; the next call can begin then. A fault
    /// closes the connection.
    pub fn receive(&mut self, bytes: &[u8]) -> (r: Result<Option<Vec<u8>>, UpmError>)
        ensures
            final(self)@ == old(self)@.receive(bytes@),
            match old(self)@ {
                ClientView::Awaiting { reader } => match reader.fault(bytes@) {
                    Some(fault) => r matches Err(e) && e.says(fault.kind(), fault.text()),
                    None => match old(self)@.completed(bytes@) {
                        Some(payload) => r matches Ok(Some(p)) && p@ == payload,
                        None => r matches Ok(None),
                    },
                },
                ClientView::Idle => r matches Err(e) && e.says(
                    WireFault::NotExpected.kind(),
                    WireFault::NotExpected.text(),
                ),
                ClientView::Closed => r matches Err(e) && e.says(
                    ErrorKind::Transport,
                    "connection closed."@,
                ),
            },
    {
        let mut state = ClientState::Closed;
        core::mem::swap(&mut self.state, &mut state);
        match state {
            ClientState::Awaiting { reader } => {
                let mut reader = reader;
                match reader.accept(bytes) {
                    Err(fault) => {
                        self.state = ClientState::Closed;
                        Err(fault.to_error())
                    },
                    Ok(()) => {
                        if reader.is_reading() {
                            self.state = ClientState::Awaiting { reader };
                            Ok(None)
                        } else {
                            self.state = ClientState::Idle;
                            Ok(reader.into_payload())
                        }
                    },
                }
            },
            ClientState::Idle => {
                self.state = ClientState::Idle;
                Err(WireFault::NotExpected.to_error())
            },
            ClientState::Closed => {
                self.state = ClientState::Closed;
                Err(UpmError::new(ErrorKind::Transport, "connection closed."))
            },
        }
    }

    /// Records that the stream itself failed. The connection is closed.
    pub fn fail(&mut self)
        ensures
            final(self)@ == ClientView::Closed,
    {
        self.state = ClientState::Closed;
    }

    /// Shutdown the client. Every later call fails with a transport error.
    pub fn shutdown(&mut self)
        ensures
            final(self)@ == ClientView::Closed,
    {
        self.state = ClientState::Closed;
    }
}

/// A client that waits for a response and is handed the three pieces of a
/// framed response, one after the other, has the response's payload and is
/// free for the next call.
pub proof fn lemma_client_takes_response(payload: Seq<u8>)
    requires
        payload.len() <= u32::MAX,
    ensures
        ({
            let c0 = ClientView::Awaiting { reader: ReaderView::Magic };
            let c1 = c0.receive(magic());
            let c2 = c1.receive(be32(payload.len()));
            &&& c0.wanted() == 4 && c0.completed(magic()) is None
            &&& c1.wanted() == 4 && c1.completed(be32(payload.len())) is None
            &&& c2.wanted() == payload.len()
            &&& c2.completed(payload) == Some(payload)
            &&& c2.receive(payload) == ClientView::Idle
        }),
{
    lemma_be32_value_of_be32(payload.len());
}

/// A response whose first four bytes are not the marker closes the
/// connection: no byte more is asked for, and no length is read.
pub proof fn lemma_client_stops_at_bad_marker(bytes: Seq<u8>)
    requires
        bytes.len() == 4,
        bytes != magic(),
    ensures
        (ClientView::Awaiting { reader: ReaderView::Magic }).receive(bytes) == ClientView::Closed,
        ClientView::Closed.wanted() == 0,
{
}

} // verus!
