//! Framing of one message on the byte stream.
//!
//! A frame is a four byte marker, the payload's length as four bytes in
//! big-endian order, and the payload. Requests and responses are framed
//! alike. The marker is looked at before the length is.

use vstd::prelude::*;
use crate::error::{ErrorKind, UpmError};

verus! {

/// Length of the marker that opens a frame.
pub const MAGIC_LEN: usize = 4;

/// Length of the marker and the length field together.
pub const HEADER_LEN: usize = 8;

/// The marker: the ASCII text `upm:`.
pub open spec fn magic() -> Seq<u8> {
    seq![0x75u8, 0x70u8, 0x6du8, 0x3au8]
}

/// The marker spells `upm:` in ASCII.
pub proof fn lemma_magic_spells_upm()
    ensures
        "upm:"@.len() == magic().len(),
        forall|i: int| 0 <= i < 4 ==> magic()[i] == #[trigger] "upm:"@[i] as u8,
{
    reveal_strlit("upm:");
}

/// The four bytes of `n` in big-endian order.
pub open spec fn be32(n: nat) -> Seq<u8>
    recommends
        n <= u32::MAX,
{
    seq![
        (n / 0x100_0000 % 0x100) as u8,
        (n / 0x1_0000 % 0x100) as u8,
        (n / 0x100 % 0x100) as u8,
        (n % 0x100) as u8,
    ]
}

/// The number that four bytes in big-endian order stand for.
pub open spec fn be32_value(b: Seq<u8>) -> nat
    recommends
        b.len() == 4,
{
    (b[0] as nat) * 0x100_0000 + (b[1] as nat) * 0x1_0000 + (b[2] as nat) * 0x100 + (b[3] as nat)
}

/// The header of a frame whose payload has `len` bytes.
pub open spec fn header(len: nat) -> Seq<u8> {
    magic() + be32(len)
}

/// The frame that carries `payload`.
pub open spec fn frame(payload: Seq<u8>) -> Seq<u8> {
    header(payload.len()) + payload
}

/// Why bytes were not accepted as a frame, or a payload not framed.
#[derive(Debug, Clone, Copy, PartialEq, Eq, Structural)]
pub enum WireFault {
    /// Fewer bytes than the frame needs, or not the number asked for.
    ShortRead,
    /// The first four bytes are not the marker.
    BadMagic,
    /// The payload's length does not fit the four byte length field.
    TooLarge,
    /// Bytes were handed to a reader that has finished or failed.
    NotExpected,
}

impl WireFault {
    /// The kind of error that the fault is reported as.
    pub open spec fn kind(self) -> ErrorKind {
        match self {
            WireFault::ShortRead => ErrorKind::Transport,
            WireFault::BadMagic => ErrorKind::Protocol,
            WireFault::TooLarge => ErrorKind::Protocol,
            WireFault::NotExpected => ErrorKind::Protocol,
        }
    }

    /// The text that the fault is reported with.
    pub open spec fn text(self) -> Seq<char> {
        match self {
            WireFault::ShortRead => "unexpected end of stream."@,
            WireFault::BadMagic => "invalid magic header."@,
            WireFault::TooLarge => "payload too large."@,
            WireFault::NotExpected => "no frame expected."@,
        }
    }

    pub fn to_error(self) -> (e: UpmError)
        ensures
            e.says(self.kind(), self.text()),
    {
        match self {
            WireFault::ShortRead => UpmError::new(ErrorKind::Transport, "unexpected end of stream."),
            WireFault::BadMagic => UpmError::new(ErrorKind::Protocol, "invalid magic header."),
            WireFault::TooLarge => UpmError::new(ErrorKind::Protocol, "payload too large."),
            WireFault::NotExpected => UpmError::new(ErrorKind::Protocol, "no frame expected."),
        }
    }
}

/// Reading back the bytes written for `n` gives `n`.
pub proof fn lemma_be32_value_of_be32(n: nat)
    requires
        n <= u32::MAX,
    ensures
        be32(n).len() == 4,
        be32_value(be32(n)) == n,
{
}

/// Writing the number that four bytes stand for gives the four bytes.
pub proof fn lemma_be32_of_be32_value(b: Seq<u8>)
    requires
        b.len() == 4,
    ensures
        be32_value(b) <= u32::MAX,
        be32(be32_value(b)) == b,
{
    let b0 = b[0] as int;
    let b1 = b[1] as int;
    let b2 = b[2] as int;
    let b3 = b[3] as int;
    let v = be32_value(b) as int;
    lemma_quotient_and_rest(v, 0x100_0000, b0, b1 * 0x1_0000 + b2 * 0x100 + b3);
    lemma_quotient_and_rest(v, 0x1_0000, b0 * 0x100 + b1, b2 * 0x100 + b3);
    lemma_quotient_and_rest(v, 0x100, b0 * 0x1_0000 + b1 * 0x100 + b2, b3);
    lemma_quotient_and_rest(b0 * 0x100 + b1, 0x100, b0, b1);
    lemma_quotient_and_rest(b0 * 0x1_0000 + b1 * 0x100 + b2, 0x100, b0 * 0x100 + b1, b2);
    lemma_quotient_and_rest(b0, 0x100, 0, b0);
    assert(be32(be32_value(b)) =~= b);
}

/// A number written as `q * d + r` with `0 <= r < d` has quotient `q` and
/// remainder `r` by `d`.
proof fn lemma_quotient_and_rest(x: int, d: int, q: int, r: int)
    requires
        d > 0,
        0 <= r < d,
        x == q * d + r,
    ensures
        x / d == q,
        x % d == r,
{
    assert(x / d == q && x % d == r) by (nonlinear_arith)
        requires
            d > 0,
            0 <= r < d,
            x == q * d + r,
    ;
}

/// The marker and the length field of a frame for `len` payload bytes.
pub fn encode_header(len: u32) -> (h: Vec<u8>)
    ensures
        h@ == header(len as nat),
{
    let mut h: Vec<u8> = Vec::new();
    h.push(0x75u8);
    h.push(0x70u8);
    h.push(0x6du8);
    h.push(0x3au8);
    h.push((len / 0x100_0000 % 0x100) as u8);
    h.push((len / 0x1_0000 % 0x100) as u8);
    h.push((len / 0x100 % 0x100) as u8);
    h.push((len % 0x100) as u8);
    assert(h@ =~= header(len as nat));
    h
}

/// Frames `payload`. A payload longer than the length field can say is
/// refused, so that the field always gives the payload's length.
pub fn encode_frame(payload: &[u8]) -> (r: Result<Vec<u8>, WireFault>)
    ensures
        payload@.len() <= u32::MAX ==> (r matches Ok(bytes) && bytes@ == frame(payload@)),
        payload@.len() > u32::MAX ==> r == Err::<Vec<u8>, WireFault>(WireFault::TooLarge),
{
    if payload.len() > 0xffff_ffffusize {
        return Err(WireFault::TooLarge);
    }
    let mut out = encode_header(payload.len() as u32);
    let mut i: usize = 0;
    while i < payload.len()
        invariant
            i <= payload@.len(),
            out@ == header(payload@.len()) + payload@.take(i as int),
        decreases payload@.len() - i,
    {
        out.push(payload[i]);
        assert(payload@.take(i as int + 1) =~= payload@.take(i as int).push(payload@[i as int]));
        i = i + 1;
    }
    assert(payload@.take(i as int) =~= payload@);
    Ok(out)
}

/// Whether `bytes` are exactly the marker.
pub fn check_magic(bytes: &[u8]) -> (r: Result<(), WireFault>)
    ensures
        bytes@ == magic() ==> r is Ok,
        bytes@.len() == 4 && bytes@ != magic() ==> r == Err::<(), WireFault>(WireFault::BadMagic),
        bytes@.len() != 4 ==> r == Err::<(), WireFault>(WireFault::ShortRead),
{
    if bytes.len() != 4 {
        return Err(WireFault::ShortRead);
    }
    if bytes[0] == 0x75u8 && bytes[1] == 0x70u8 && bytes[2] == 0x6du8 && bytes[3] == 0x3au8 {
        assert(bytes@ =~= magic());
        Ok(())
    } else {
        Err(WireFault::BadMagic)
    }
}

/// The payload length that the four bytes of a length field give.
pub fn decode_length(bytes: &[u8]) -> (r: Result<u32, WireFault>)
    ensures
        bytes@.len() == 4 ==> (r matches Ok(n) && n as nat == be32_value(bytes@)),
        bytes@.len() != 4 ==> r == Err::<u32, WireFault>(WireFault::ShortRead),
{
    if bytes.len() != 4 {
        return Err(WireFault::ShortRead);
    }
    let b0: u32 = bytes[0] as u32;
    let b1: u32 = bytes[1] as u32;
    let b2: u32 = bytes[2] as u32;
    let b3: u32 = bytes[3] as u32;
    Ok(b0 * 0x100_0000 + b1 * 0x1_0000 + b2 * 0x100 + b3)
}

/// What a whole buffer holds, read as one frame from its start: the payload,
/// or the first fault met. The marker is judged before the length field is
/// looked at. Bytes after the frame are left alone.
pub open spec fn parse(buf: Seq<u8>) -> Result<Seq<u8>, WireFault> {
    if buf.len() < 4 {
        Err(WireFault::ShortRead)
    } else if buf.subrange(0, 4) != magic() {
        Err(WireFault::BadMagic)
    } else if buf.len() < 8 {
        Err(WireFault::ShortRead)
    } else if buf.len() - 8 < be32_value(buf.subrange(4, 8)) {
        Err(WireFault::ShortRead)
    } else {
        Ok(buf.subrange(8, 8 + be32_value(buf.subrange(4, 8)) as int))
    }
}

/// Reads one frame from the start of `buf` and returns its payload.
pub fn decode_frame(buf: &[u8]) -> (r: Result<Vec<u8>, WireFault>)
    ensures
        match parse(buf@) {
            Ok(payload) => r matches Ok(bytes) && bytes@ == payload,
            Err(fault) => r == Err::<Vec<u8>, WireFault>(fault),
        },
{
    if buf.len() < 4 {
        return Err(WireFault::ShortRead);
    }
    if !(buf[0] == 0x75u8 && buf[1] == 0x70u8 && buf[2] == 0x6du8 && buf[3] == 0x3au8) {
        assert(buf@.subrange(0, 4)[0] == buf@[0]);
        assert(buf@.subrange(0, 4)[1] == buf@[1]);
        assert(buf@.subrange(0, 4)[2] == buf@[2]);
        assert(buf@.subrange(0, 4)[3] == buf@[3]);
        return Err(WireFault::BadMagic);
    }
    assert(buf@.subrange(0, 4) =~= magic());
    if buf.len() < 8 {
        return Err(WireFault::ShortRead);
    }
    let b0: u32 = buf[4] as u32;
    let b1: u32 = buf[5] as u32;
    let b2: u32 = buf[6] as u32;
    let b3: u32 = buf[7] as u32;
    let len: u32 = b0 * 0x100_0000 + b1 * 0x1_0000 + b2 * 0x100 + b3;
    assert(len as nat == be32_value(buf@.subrange(4, 8)));
    let rest: usize = buf.len() - 8;
    if (rest as u64) < (len as u64) {
        return Err(WireFault::ShortRead);
    }
    let n: usize = len as usize;
    let mut out: Vec<u8> = Vec::new();
    let mut i: usize = 0;
    while i < n
        invariant
            i <= n,
            8 + n <= buf@.len() <= usize::MAX,
            out@ == buf@.subrange(8, 8 + i as int),
        decreases n - i,
    {
        out.push(buf[8 + i]);
        assert(buf@.subrange(8, 8 + i as int + 1) =~= buf@.subrange(8, 8 + i as int).push(
            buf@[8 + i as int],
        ));
        i = i + 1;
    }
    Ok(out)
}

/// Framing and reading back gives the payload again, whatever follows the
/// frame in the buffer.
pub proof fn lemma_parse_frame(payload: Seq<u8>, rest: Seq<u8>)
    requires
        payload.len() <= u32::MAX,
    ensures
        parse(frame(payload) + rest) == Ok::<Seq<u8>, WireFault>(payload),
        parse(frame(payload)) == Ok::<Seq<u8>, WireFault>(payload),
{
    lemma_be32_value_of_be32(payload.len());
    let f = frame(payload);
    let buf = f + rest;
    assert(f.subrange(0, 4) =~= magic());
    assert(f.subrange(4, 8) =~= be32(payload.len()));
    assert(f.subrange(8, 8 + payload.len() as int) =~= payload);
    assert(buf.subrange(0, 4) =~= magic());
    assert(buf.subrange(4, 8) =~= be32(payload.len()));
    assert(buf.subrange(8, 8 + payload.len() as int) =~= payload);
}

/// A buffer whose first four bytes are not the marker is refused for its
/// marker, whatever its length field says and however short the rest is.
pub proof fn lemma_marker_judged_first(buf: Seq<u8>)
    requires
        buf.len() >= 4,
        buf.subrange(0, 4) != magic(),
    ensures
        parse(buf) == Err::<Seq<u8>, WireFault>(WireFault::BadMagic),
{
}

/// What a frame reader has taken in so far.
pub enum ReaderView {
    Magic,
    Length,
    Payload { len: nat },
    Done { payload: Seq<u8> },
    Failed { fault: WireFault },
}

impl ReaderView {
    /// The number of bytes that have to be read from the stream next.
    pub open spec fn wanted(self) -> nat {
        match self {
            ReaderView::Magic => 4,
            ReaderView::Length => 4,
            ReaderView::Payload { len } => len,
            ReaderView::Done { .. } => 0,
            ReaderView::Failed { .. } => 0,
        }
    }

    /// Whether bytes can still be taken in.
    pub open spec fn reading(self) -> bool {
        self is Magic || self is Length || self is Payload
    }

    /// The fault that `bytes` meet in this state, if any.
    pub open spec fn fault(self, bytes: Seq<u8>) -> Option<WireFault> {
        if !self.reading() {
            Some(WireFault::NotExpected)
        } else if bytes.len() != self.wanted() {
            Some(WireFault::ShortRead)
        } else if self is Magic && bytes != magic() {
            Some(WireFault::BadMagic)
        } else {
            None
        }
    }

    /// The state after `bytes` were handed in. A reader that has finished or
    /// failed stays as it is.
    pub open spec fn accept(self, bytes: Seq<u8>) -> ReaderView {
        if !self.reading() {
            self
        } else {
            match self.fault(bytes) {
                Some(fault) => ReaderView::Failed { fault },
                None => match self {
                    ReaderView::Magic => ReaderView::Length,
                    ReaderView::Length => ReaderView::Payload { len: be32_value(bytes) },
                    _ => ReaderView::Done { payload: bytes },
                },
            }
        }
    }
}

/// Reads one frame piece by piece. The caller reads `wanted()` bytes from
/// the stream and hands them to `accept`, until the reader has finished or
/// failed.
#[derive(Debug)]
pub enum FrameReader {
    /// The marker comes next.
    Magic,
    /// The marker was right; the length field comes next.
    Length,
    /// The payload of `len` bytes comes next.
    Payload { len: u32 },
    /// The frame is complete.
    Done { payload: Vec<u8> },
    /// The frame was refused. Nothing more is read.
    Failed { fault: WireFault },
}

impl View for FrameReader {
    type V = ReaderView;

    open spec fn view(&self) -> ReaderView {
        match *self {
            FrameReader::Magic => ReaderView::Magic,
            FrameReader::Length => ReaderView::Length,
            FrameReader::Payload { len } => ReaderView::Payload { len: len as nat },
            FrameReader::Done { payload } => ReaderView::Done { payload: payload@ },
            FrameReader::Failed { fault } => ReaderView::Failed { fault },
        }
    }
}

impl FrameReader {
    /// A reader at the start of a frame.
    pub fn new() -> (r: FrameReader)
        ensures
            r@ == ReaderView::Magic,
    {
        FrameReader::Magic
    }

    /// The number of bytes to read from the stream and hand in next.
    pub fn wanted(&self) -> (n: usize)
        ensures
            n as nat == self@.wanted(),
    {
        match self {
            FrameReader::Magic => 4,
            FrameReader::Length => 4,
            FrameReader::Payload { len } => *len as usize,
            FrameReader::Done { .. } => 0,
            FrameReader::Failed { .. } => 0,
        }
    }

    /// Whether the reader still takes bytes.
    pub fn is_reading(&self) -> (b: bool)
        ensures
            b == self@.reading(),
    {
        match self {
            FrameReader::Magic => true,
            FrameReader::Length => true,
            FrameReader::Payload { .. } => true,
            FrameReader::Done { .. } => false,
            FrameReader::Failed { .. } => false,
        }
    }

    /// Takes in the bytes read from the stream.
    pub fn accept(&mut self, bytes: &[u8]) -> (r: Result<(), WireFault>)
        ensures
            final(self)@ == old(self)@.accept(bytes@),
            match old(self)@.fault(bytes@) {
                Some(fault) => r == Err::<(), WireFault>(fault),
                None => r is Ok,
            },
    {
        let verdict: Result<FrameReader, WireFault> = match self {
            FrameReader::Magic => match check_magic(bytes) {
                Ok(()) => Ok(FrameReader::Length),
                Err(fault) => Err(fault),
            },
            FrameReader::Length => match decode_length(bytes) {
                Ok(len) => Ok(FrameReader::Payload { len }),
                Err(fault) => Err(fault),
            },
            FrameReader::Payload { len } => {
                if bytes.len() as u64 != *len as u64 {
                    Err(WireFault::ShortRead)
                } else {
                    Ok(FrameReader::Done { payload: vstd::slice::slice_to_vec(bytes) })
                }
            },
            FrameReader::Done { .. } => { return Err(WireFault::NotExpected); },
            FrameReader::Failed { .. } => { return Err(WireFault::NotExpected); },
        };
        match verdict {
            Ok(next) => {
                *self = next;
                Ok(())
            },
            Err(fault) => {
                *self = FrameReader::Failed { fault };
                Err(fault)
            },
        }
    }

    /// The payload of the finished frame.
    pub fn into_payload(self) -> (r: Option<Vec<u8>>)
        ensures
            match self@ {
                ReaderView::Done { payload } => r matches Some(bytes) && bytes@ == payload,
                _ => r is None,
            },
    {
        match self {
            FrameReader::Done { payload } => Some(payload),
            _ => None,
        }
    }
}

/// A reader that is handed the marker, the length field and the payload of a
/// frame, one after the other, finishes with that payload.
pub proof fn lemma_reader_takes_frame(payload: Seq<u8>)
    requires
        payload.len() <= u32::MAX,
    ensures
        ReaderView::Magic.accept(magic()).accept(be32(payload.len())).accept(payload)
            == (ReaderView::Done { payload }),
{
    lemma_be32_value_of_be32(payload.len());
}

/// A reader that is handed four bytes other than the marker fails for the
/// marker and asks for no byte more: no length is ever read.
pub proof fn lemma_reader_stops_at_bad_marker(bytes: Seq<u8>)
    requires
        bytes.len() == 4,
        bytes != magic(),
    ensures
        ReaderView::Magic.accept(bytes) == (ReaderView::Failed { fault: WireFault::BadMagic }),
        ReaderView::Magic.accept(bytes).wanted() == 0,
        !ReaderView::Magic.accept(bytes).reading(),
{
}

} // verus!
