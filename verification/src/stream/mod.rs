//! HTTP/3 streams (RFC 9114 Section 6): stream types and kinds, the
//! state of a stream, and the buffers of data waiting to be sent or read.

use vstd::prelude::*;
use crate::buf::{bytes_mut_contents, bytes_mut_new, bytes_mut_extend, bytes_mut_advance, bytes_mut_as_slice,
    bytes_mut_len};

pub mod control;
pub mod request;

pub use self::control::{ControlStreamRecv, ControlStreamSend};
pub use self::request::{RawReceivedData, RequestStream};

verus! {

/// The types of unidirectional streams (RFC 9114 Section 6.2, RFC 9204
/// Section 4.2, WebTransport).
#[derive(Debug, Clone, Copy, PartialEq, Eq, Structural)]
pub enum UniStreamType {
    /// The control stream (0x00).
    Control,
    /// A push stream (0x01).
    Push,
    /// The QPACK encoder stream (0x02).
    QpackEncoder,
    /// The QPACK decoder stream (0x03).
    QpackDecoder,
    /// A WebTransport stream (0x54).
    WebTransport,
}

/// The wire value of a stream type.
pub open spec fn uni_stream_type_value(t: UniStreamType) -> u64 {
    match t {
        UniStreamType::Control => 0x00,
        UniStreamType::Push => 0x01,
        UniStreamType::QpackEncoder => 0x02,
        UniStreamType::QpackDecoder => 0x03,
        UniStreamType::WebTransport => 0x54,
    }
}

/// The stream type a wire value names.
pub open spec fn uni_stream_type_of(t: u64) -> Option<UniStreamType> {
    if t == 0x00 {
        Some(UniStreamType::Control)
    } else if t == 0x01 {
        Some(UniStreamType::Push)
    } else if t == 0x02 {
        Some(UniStreamType::QpackEncoder)
    } else if t == 0x03 {
        Some(UniStreamType::QpackDecoder)
    } else if t == 0x54 {
        Some(UniStreamType::WebTransport)
    } else {
        None
    }
}

impl UniStreamType {
    /// The stream type a wire value names.
    pub fn from_type(t: u64) -> (r: Option<UniStreamType>)
        ensures
            r == uni_stream_type_of(t),
    {
        match t {
            0x00 => Some(UniStreamType::Control),
            0x01 => Some(UniStreamType::Push),
            0x02 => Some(UniStreamType::QpackEncoder),
            0x03 => Some(UniStreamType::QpackDecoder),
            0x54 => Some(UniStreamType::WebTransport),
            _ => None,
        }
    }

    /// The wire value.
    pub fn value(self) -> (r: u64)
        ensures
            r == uni_stream_type_value(self),
            uni_stream_type_of(r) == Some(self),
    {
        match self {
            UniStreamType::Control => 0x00,
            UniStreamType::Push => 0x01,
            UniStreamType::QpackEncoder => 0x02,
            UniStreamType::QpackDecoder => 0x03,
            UniStreamType::WebTransport => 0x54,
        }
    }

    /// Whether `t` is a reserved type, `0x1f * N + 0x21` (Section 6.2.3),
    /// which a receiver ignores.
    pub fn is_reserved(t: u64) -> (r: bool)
        ensures
            r == (t >= 0x21 && (t - 0x21) % 0x1f == 0),
    {
        t >= 0x21 && (t - 0x21) % 0x1f == 0
    }
}

/// Who opened a stream and in which directions data flows (RFC 9000
/// Section 2.1).
#[derive(Debug, Clone, Copy, PartialEq, Eq, Structural)]
pub enum StreamKind {
    /// Client-initiated, bidirectional.
    ClientBidi,
    /// Server-initiated, bidirectional.
    ServerBidi,
    /// Client-initiated, unidirectional.
    ClientUni,
    /// Server-initiated, unidirectional.
    ServerUni,
}

/// The kind the two low bits of a stream ID give.
pub open spec fn stream_kind_of(stream_id: u64) -> StreamKind {
    let low = stream_id % 4;
    if low == 0 {
        StreamKind::ClientBidi
    } else if low == 1 {
        StreamKind::ServerBidi
    } else if low == 2 {
        StreamKind::ClientUni
    } else {
        StreamKind::ServerUni
    }
}

impl StreamKind {
    /// The kind of stream `stream_id`.
    pub fn from_stream_id(stream_id: u64) -> (r: StreamKind)
        ensures
            r == stream_kind_of(stream_id),
    {
        let low = stream_id % 4;
        if low == 0 {
            StreamKind::ClientBidi
        } else if low == 1 {
            StreamKind::ServerBidi
        } else if low == 2 {
            StreamKind::ClientUni
        } else {
            StreamKind::ServerUni
        }
    }

    /// Whether data flows both ways.
    pub fn is_bidirectional(self) -> (r: bool)
        ensures
            r == (self == StreamKind::ClientBidi || self == StreamKind::ServerBidi),
    {
        matches!(self, StreamKind::ClientBidi | StreamKind::ServerBidi)
    }

    /// Whether data flows one way.
    pub fn is_unidirectional(self) -> (r: bool)
        ensures
            r == (self == StreamKind::ClientUni || self == StreamKind::ServerUni),
    {
        matches!(self, StreamKind::ClientUni | StreamKind::ServerUni)
    }

    /// Whether the client opened the stream.
    pub fn is_client_initiated(self) -> (r: bool)
        ensures
            r == (self == StreamKind::ClientBidi || self == StreamKind::ClientUni),
    {
        matches!(self, StreamKind::ClientBidi | StreamKind::ClientUni)
    }

    /// Whether the server opened the stream.
    pub fn is_server_initiated(self) -> (r: bool)
        ensures
            r == (self == StreamKind::ServerBidi || self == StreamKind::ServerUni),
    {
        matches!(self, StreamKind::ServerBidi | StreamKind::ServerUni)
    }
}

/// The state of a stream's two directions.
#[derive(Debug, Clone, Copy, PartialEq, Eq, Structural)]
pub enum StreamState {
    /// Both directions open.
    Open,
    /// This side finished sending.
    LocalClosed,
    /// The peer finished sending.
    RemoteClosed,
    /// Both finished.
    Closed,
    /// Reset.
    Reset,
}

impl Default for StreamState {
    fn default() -> (r: StreamState)
        ensures
            r == StreamState::Open,
    {
        StreamState::Open
    }
}

impl StreamState {
    /// This side finishes sending: open becomes local-closed, remote-closed
    /// becomes closed; other states stay.
    pub fn close_local(&mut self)
        ensures
            *final(self) == (match *old(self) {
                StreamState::Open => StreamState::LocalClosed,
                StreamState::RemoteClosed => StreamState::Closed,
                other => other,
            }),
    {
        *self = match *self {
            StreamState::Open => StreamState::LocalClosed,
            StreamState::RemoteClosed => StreamState::Closed,
            other => other,
        };
    }

    /// The peer finishes sending: open becomes remote-closed, local-closed
    /// becomes closed; other states stay.
    pub fn close_remote(&mut self)
        ensures
            *final(self) == (match *old(self) {
                StreamState::Open => StreamState::RemoteClosed,
                StreamState::LocalClosed => StreamState::Closed,
                other => other,
            }),
    {
        *self = match *self {
            StreamState::Open => StreamState::RemoteClosed,
            StreamState::LocalClosed => StreamState::Closed,
            other => other,
        };
    }

    /// The stream is reset.
    pub fn reset(&mut self)
        ensures
            *final(self) == StreamState::Reset,
    {
        *self = StreamState::Reset;
    }

    /// Whether the stream was reset.
    pub fn is_reset(self) -> (r: bool)
        ensures
            r == (self == StreamState::Reset),
    {
        matches!(self, StreamState::Reset)
    }

    /// Whether this side may still send: open or remote-closed.
    pub fn can_send(self) -> (r: bool)
        ensures
            r == (self == StreamState::Open || self == StreamState::RemoteClosed),
    {
        matches!(self, StreamState::Open | StreamState::RemoteClosed)
    }

    /// Whether this side may still receive: open or local-closed.
    pub fn can_receive(self) -> (r: bool)
        ensures
            r == (self == StreamState::Open || self == StreamState::LocalClosed),
    {
        matches!(self, StreamState::Open | StreamState::LocalClosed)
    }
}

/// The abstract state of a send buffer.
pub struct SendBufferView {
    /// The bytes not yet sent.
    pub data: Seq<u8>,
    /// Whether the stream is to end after the data.
    pub fin: bool,
    /// Whether the end went out.
    pub fin_sent: bool,
}

/// Data waiting to be sent on a stream, and its end.
#[derive(Debug)]
pub struct SendBuffer {
    data: bytes::BytesMut,
    fin: bool,
    fin_sent: bool,
}

impl View for SendBuffer {
    type V = SendBufferView;

    closed spec fn view(&self) -> SendBufferView {
        SendBufferView { data: bytes_mut_contents(self.data), fin: self.fin, fin_sent: self.fin_sent }
    }
}

impl Default for SendBuffer {
    fn default() -> (r: SendBuffer)
        ensures
            r@ == (SendBufferView { data: Seq::empty(), fin: false, fin_sent: false }),
    {
        SendBuffer::new()
    }
}

impl SendBuffer {
    /// An empty buffer.
    pub fn new() -> (r: SendBuffer)
        ensures
            r@ == (SendBufferView { data: Seq::empty(), fin: false, fin_sent: false }),
    {
        SendBuffer { data: bytes_mut_new(), fin: false, fin_sent: false }
    }

    /// Appends data to send.
    pub fn push(&mut self, data: &[u8])
        requires
            old(self)@.data.len() + data@.len() <= usize::MAX,
        ensures
            final(self)@ == (SendBufferView { data: old(self)@.data + data@, ..old(self)@ }),
    {
        bytes_mut_extend(&mut self.data, data);
    }

    /// Marks the end of the stream.
    pub fn set_fin(&mut self)
        ensures
            final(self)@ == (SendBufferView { fin: true, ..old(self)@ }),
    {
        self.fin = true;
    }

    /// Whether the stream is to end.
    pub fn is_fin(&self) -> (r: bool)
        ensures
            r == self@.fin,
    {
        self.fin
    }

    /// The bytes not yet sent.
    pub fn peek(&self) -> (r: &[u8])
        ensures
            r@ == self@.data,
    {
        bytes_mut_as_slice(&self.data)
    }

    /// Drops the first `len` bytes, which went out.
    pub fn consume(&mut self, len: usize)
        requires
            len <= old(self)@.data.len(),
        ensures
            final(self)@ == (SendBufferView { data: old(self)@.data.skip(len as int), ..old(self)@ }),
    {
        bytes_mut_advance(&mut self.data, len);
    }

    /// Whether data or the end remains to be sent.
    pub fn has_pending(&self) -> (r: bool)
        ensures
            r == (self@.data.len() > 0 || (self@.fin && !self@.fin_sent)),
    {
        bytes_mut_len(&self.data) != 0 || (self.fin && !self.fin_sent)
    }

    /// Records that the end went out.
    pub fn mark_fin_sent(&mut self)
        ensures
            final(self)@ == (SendBufferView { fin_sent: true, ..old(self)@ }),
    {
        self.fin_sent = true;
    }

    /// Whether everything, end included, went out.
    pub fn is_complete(&self) -> (r: bool)
        ensures
            r == (self@.data.len() == 0 && self@.fin && self@.fin_sent),
    {
        bytes_mut_len(&self.data) == 0 && self.fin && self.fin_sent
    }
}

/// The abstract state of a receive buffer.
pub struct RecvBufferView {
    /// The bytes not yet read.
    pub data: Seq<u8>,
    /// Whether the stream has ended.
    pub fin: bool,
}

/// Data received on a stream and not yet read, and its end.
#[derive(Debug)]
pub struct RecvBuffer {
    data: bytes::BytesMut,
    fin: bool,
}

impl View for RecvBuffer {
    type V = RecvBufferView;

    closed spec fn view(&self) -> RecvBufferView {
        RecvBufferView { data: bytes_mut_contents(self.data), fin: self.fin }
    }
}

impl Default for RecvBuffer {
    fn default() -> (r: RecvBuffer)
        ensures
            r@ == (RecvBufferView { data: Seq::empty(), fin: false }),
    {
        RecvBuffer::new()
    }
}

impl RecvBuffer {
    /// An empty buffer.
    pub fn new() -> (r: RecvBuffer)
        ensures
            r@ == (RecvBufferView { data: Seq::empty(), fin: false }),
    {
        RecvBuffer { data: bytes_mut_new(), fin: false }
    }

    /// Appends received data.
    pub fn push(&mut self, data: &[u8])
        requires
            old(self)@.data.len() + data@.len() <= usize::MAX,
        ensures
            final(self)@ == (RecvBufferView { data: old(self)@.data + data@, ..old(self)@ }),
    {
        bytes_mut_extend(&mut self.data, data);
    }

    /// Marks the end of the stream.
    pub fn set_fin(&mut self)
        ensures
            final(self)@ == (RecvBufferView { fin: true, ..old(self)@ }),
    {
        self.fin = true;
    }

    /// Whether the stream has ended.
    pub fn is_fin(&self) -> (r: bool)
        ensures
            r == self@.fin,
    {
        self.fin
    }

    /// The bytes not yet read.
    pub fn peek(&self) -> (r: &[u8])
        ensures
            r@ == self@.data,
    {
        bytes_mut_as_slice(&self.data)
    }

    /// The underlying buffer, for decoding in place.
    pub fn data_mut(&mut self) -> (r: &mut bytes::BytesMut)
        ensures
            bytes_mut_contents(*r) == old(self)@.data,
            final(self)@ == (RecvBufferView { data: bytes_mut_contents(*final(r)), ..old(self)@ }),
    {
        &mut self.data
    }

    /// Drops the first `len` bytes, which were read.
    pub fn consume(&mut self, len: usize)
        requires
            len <= old(self)@.data.len(),
        ensures
            final(self)@ == (RecvBufferView { data: old(self)@.data.skip(len as int), ..old(self)@ }),
    {
        bytes_mut_advance(&mut self.data, len);
    }

    /// Whether unread data remains.
    pub fn has_data(&self) -> (r: bool)
        ensures
            r == (self@.data.len() > 0),
    {
        bytes_mut_len(&self.data) != 0
    }

    /// Whether the stream ended and everything was read.
    pub fn is_complete(&self) -> (r: bool)
        ensures
            r == (self@.data.len() == 0 && self@.fin),
    {
        !self.has_data() && self.fin
    }
}

} // verus!
