//! HTTP/3 request streams (RFC 9114 Section 6.1): the frames of one
//! request or response, sent and received on a bidirectional stream.
//!
//! Field sections travel QPACK-encoded: the caller encodes what goes out
//! and decodes what comes in, so the stream only frames and orders them.

use vstd::prelude::*;
use crate::bytes_be::append_bytes;
use crate::error::{Error, ErrorCode};
use crate::qpack::header::{Header, HeaderView};
use crate::frame::{frame_encoding, frame_head, is_http2_frame_type, lemma_frame_head_roundtrip, read_frame_head};
use crate::varint::{push_varint, VARINT_MAX_VALUE, lemma_varint_roundtrip};
use super::{RecvBuffer, RecvBufferView, SendBuffer, SendBufferView, StreamState};

verus! {

/// Where the sending side of a request stream stands.
#[derive(Debug, Clone, Copy, PartialEq, Eq, Structural)]
pub enum RequestSendState {
    /// Nothing sent.
    Initial,
    /// An interim (1xx) response went out; a final one must follow.
    InterimResponseSent,
    /// The request or final response headers went out.
    HeadersSent,
    /// Body data is going out.
    SendingBody,
    /// Trailers went out; nothing more may follow.
    TrailersSent,
    /// The stream end went out.
    Complete,
}

/// Where the receiving side of a request stream stands.
#[derive(Debug, Clone, Copy, PartialEq, Eq, Structural)]
pub enum RequestRecvState {
    /// Waiting for a header section.
    WaitingHeaders,
    /// Headers came; body data may follow.
    ReceivingBody,
    /// Trailers came; nothing more may follow.
    TrailersReceived,
    /// The stream ended.
    Complete,
}

/// What a request stream hands up, still QPACK-encoded.
#[derive(Debug, Clone)]
pub enum RawReceivedData {
    /// An encoded header section.
    Headers(Vec<u8>),
    /// An encoded trailer section (RFC 9114 Section 4.1).
    Trailers(Vec<u8>),
    /// Body data.
    Data(Vec<u8>),
    /// The peer ended the stream.
    StreamEnd,
}

/// The abstract content of [`RawReceivedData`].
pub enum RawView {
    /// An encoded header section.
    Headers(Seq<u8>),
    /// An encoded trailer section.
    Trailers(Seq<u8>),
    /// Body data.
    Data(Seq<u8>),
    /// The peer ended the stream.
    StreamEnd,
}

impl View for RawReceivedData {
    type V = RawView;

    open spec fn view(&self) -> RawView {
        match self {
            RawReceivedData::Headers(b) => RawView::Headers(b@),
            RawReceivedData::Trailers(b) => RawView::Trailers(b@),
            RawReceivedData::Data(b) => RawView::Data(b@),
            RawReceivedData::StreamEnd => RawView::StreamEnd,
        }
    }
}

/// The abstract result of reading a request stream.
pub open spec fn raw_result(r: Result<Option<RawReceivedData>, Error>) -> Result<Option<RawView>, Error> {
    match r {
        Ok(Some(d)) => Ok(Some(d@)),
        Ok(None) => Ok(None),
        Err(e) => Err(e),
    }
}

/// The abstract state of a request stream.
pub struct RequestStreamView {
    /// The stream ID.
    pub stream_id: u64,
    /// What waits to be sent.
    pub send: SendBufferView,
    /// What was received and not yet read.
    pub recv: RecvBufferView,
    /// The sending side's progress.
    pub send_state: RequestSendState,
    /// The receiving side's progress.
    pub recv_state: RequestRecvState,
    /// The state of the stream's two directions.
    pub state: StreamState,
    /// The decoded headers the caller recorded.
    pub recv_headers: Seq<HeaderView>,
    /// All body data received.
    pub recv_body: Seq<u8>,
    /// The request was a HEAD request.
    pub is_head_request: bool,
    /// This side sent a plain CONNECT request.
    pub is_connect_request: bool,
    /// The stream carries a CONNECT tunnel (RFC 9114 Section 4.4).
    pub is_connect: bool,
    /// Reading waits on the QPACK decoder.
    pub qpack_blocked: bool,
    /// The Required Insert Count the stream waits for.
    pub qpack_ricnt: u64,
    /// The encoded section that waits, and whether it is a trailer section.
    pub qpack_blocked_header: Option<(Seq<u8>, bool)>,
}

/// The state after this side finished sending.
pub open spec fn closed_local(s: StreamState) -> StreamState {
    match s {
        StreamState::Open => StreamState::LocalClosed,
        StreamState::RemoteClosed => StreamState::Closed,
        other => other,
    }
}

/// The state after the peer finished sending.
pub open spec fn closed_remote(s: StreamState) -> StreamState {
    match s {
        StreamState::Open => StreamState::RemoteClosed,
        StreamState::LocalClosed => StreamState::Closed,
        other => other,
    }
}

/// Whether a stream in state `s` may still send.
pub open spec fn sendable(s: StreamState) -> bool {
    s == StreamState::Open || s == StreamState::RemoteClosed
}

/// Reading a HEADERS frame whose payload is `payload`, with the frame
/// already taken off the buffer: the first section is the headers, one
/// after body data the trailers; any after the trailers, or any after
/// the headers of a CONNECT tunnel, is `FrameUnexpected` (Sections 4.1, 4.4).
pub open spec fn headers_step(w: RequestStreamView, payload: Seq<u8>) -> (Result<Option<RawView>, Error>, RequestStreamView) {
    if w.recv_state == RequestRecvState::TrailersReceived {
        (Err(Error::ConnectionError(ErrorCode::FrameUnexpected)), w)
    } else if w.recv_state == RequestRecvState::ReceivingBody {
        if w.is_connect {
            (Err(Error::ConnectionError(ErrorCode::FrameUnexpected)), w)
        } else {
            (
                Ok(Some(RawView::Trailers(payload))),
                RequestStreamView { recv_state: RequestRecvState::TrailersReceived, ..w },
            )
        }
    } else {
        (Ok(Some(RawView::Headers(payload))), RequestStreamView { recv_state: RequestRecvState::ReceivingBody, ..w })
    }
}

/// Reading a DATA frame whose payload is `payload`, with the frame already
/// taken off the buffer: before the headers or after the trailers it is
/// `FrameUnexpected` (Section 4.1); else the data is handed up and kept.
pub open spec fn data_step(w: RequestStreamView, payload: Seq<u8>) -> (Result<Option<RawView>, Error>, RequestStreamView) {
    if w.recv_state == RequestRecvState::WaitingHeaders || w.recv_state == RequestRecvState::TrailersReceived {
        (Err(Error::ConnectionError(ErrorCode::FrameUnexpected)), w)
    } else {
        (Ok(Some(RawView::Data(payload))), RequestStreamView { recv_body: w.recv_body + payload, ..w })
    }
}

/// What reading a request stream gives and leaves. With nothing buffered:
/// the stream end once it came (a `MessageError` where no headers came
/// before it), else nothing yet. Otherwise the frame at the front: an
/// HTTP/2 type is `FrameUnexpected`; a frame cut short by the stream end
/// is `FrameError`, one not yet complete gives nothing yet; SETTINGS,
/// CANCEL_PUSH and PUSH_PROMISE are `FrameUnexpected` and stay buffered;
/// GOAWAY and MAX_PUSH_ID are taken off and are `FrameUnexpected`
/// (Sections 7.2.4 to 7.2.7); HEADERS and DATA go as [`headers_step`] and
/// [`data_step`] say; frames of other types are skipped (Section 9).
pub open spec fn raw_step(v: RequestStreamView) -> (Result<Option<RawView>, Error>, RequestStreamView)
    decreases v.recv.data.len(),
{
    let data = v.recv.data;
    if data.len() == 0 {
        if v.recv.fin && v.recv_state != RequestRecvState::Complete {
            if v.recv_state == RequestRecvState::WaitingHeaders {
                (Err(Error::StreamError(ErrorCode::MessageError)), v)
            } else {
                (
                    Ok(Some(RawView::StreamEnd)),
                    RequestStreamView { state: closed_remote(v.state), recv_state: RequestRecvState::Complete, ..v },
                )
            }
        } else {
            (Ok(None), v)
        }
    } else {
        match frame_head(data) {
            None => if v.recv.fin {
                (Err(Error::ConnectionError(ErrorCode::FrameError)), v)
            } else {
                (Ok(None), v)
            },
            Some((t, h, len)) => {
                let total = h + len;
                if is_http2_frame_type(t) {
                    (Err(Error::ConnectionError(ErrorCode::FrameUnexpected)), v)
                } else if total > usize::MAX {
                    (Err(Error::ConnectionError(ErrorCode::FrameError)), v)
                } else if data.len() < total {
                    if v.recv.fin {
                        (Err(Error::ConnectionError(ErrorCode::FrameError)), v)
                    } else {
                        (Ok(None), v)
                    }
                } else if t == 0x04 || t == 0x03 || t == 0x05 {
                    (Err(Error::ConnectionError(ErrorCode::FrameUnexpected)), v)
                } else {
                    let payload = data.subrange(h as int, total);
                    let w = RequestStreamView { recv: RecvBufferView { data: data.skip(total), ..v.recv }, ..v };
                    if t == 0x01 {
                        headers_step(w, payload)
                    } else if t == 0x00 {
                        data_step(w, payload)
                    } else if t == 0x07 || t == 0x0d {
                        (Err(Error::ConnectionError(ErrorCode::FrameUnexpected)), w)
                    } else {
                        raw_step(w)
                    }
                }
            },
        }
    }
}

/// What sending an encoded header section gives and leaves: refused with
/// `StreamClosed` once this side cannot send; `FrameUnexpected` after the
/// trailers, for trailers on a CONNECT tunnel, or for an interim response
/// after the final one; `MessageError` for an interim response with the
/// stream end (Section 4.1). Otherwise a HEADERS frame is queued: the
/// first sections are headers (interim ones keep waiting for the final
/// one), a later one the trailers; with `fin` the stream end follows.
pub open spec fn send_headers_step(v: RequestStreamView, encoded: Seq<u8>, fin: bool, is_interim: bool) -> (
    Result<(), Error>,
    RequestStreamView,
) {
    let after_headers = v.send_state == RequestSendState::HeadersSent || v.send_state == RequestSendState::SendingBody;
    if !sendable(v.state) {
        (Err(Error::StreamClosed(v.stream_id)), v)
    } else if after_headers && (v.is_connect || is_interim) {
        (Err(Error::StreamError(ErrorCode::FrameUnexpected)), v)
    } else if v.send_state == RequestSendState::TrailersSent || v.send_state == RequestSendState::Complete {
        (Err(Error::StreamError(ErrorCode::FrameUnexpected)), v)
    } else if is_interim && fin {
        (Err(Error::StreamError(ErrorCode::MessageError)), v)
    } else {
        let next = if after_headers {
            RequestSendState::TrailersSent
        } else if is_interim {
            RequestSendState::InterimResponseSent
        } else {
            RequestSendState::HeadersSent
        };
        let w = RequestStreamView {
            send: SendBufferView { data: v.send.data + frame_encoding(0x01, encoded), ..v.send },
            send_state: next,
            ..v
        };
        (Ok(()), if fin { finished_sending(w) } else { w })
    }
}

/// A stream after this side ended it.
pub open spec fn finished_sending(w: RequestStreamView) -> RequestStreamView {
    RequestStreamView {
        send: SendBufferView { fin: true, ..w.send },
        state: closed_local(w.state),
        send_state: RequestSendState::Complete,
        ..w
    }
}

/// What sending body data gives and leaves: `StreamClosed` once this side
/// cannot send; `FrameUnexpected` except after the final headers or
/// between body frames (Section 4.1). Otherwise nonempty data is queued
/// as one DATA frame, and with `fin` the stream end follows.
pub open spec fn send_body_step(v: RequestStreamView, data: Seq<u8>, fin: bool) -> (Result<(), Error>, RequestStreamView) {
    if !sendable(v.state) {
        (Err(Error::StreamClosed(v.stream_id)), v)
    } else if !(v.send_state == RequestSendState::HeadersSent || v.send_state == RequestSendState::SendingBody) {
        (Err(Error::StreamError(ErrorCode::FrameUnexpected)), v)
    } else {
        let w = if data.len() > 0 {
            RequestStreamView {
                send: SendBufferView { data: v.send.data + frame_encoding(0x00, data), ..v.send },
                send_state: RequestSendState::SendingBody,
                ..v
            }
        } else {
            v
        };
        (Ok(()), if fin { finished_sending(w) } else { w })
    }
}

/// The state of a new request stream.
pub open spec fn request_stream_new(stream_id: u64) -> RequestStreamView {
    RequestStreamView {
        stream_id,
        send: SendBufferView { data: Seq::empty(), fin: false, fin_sent: false },
        recv: RecvBufferView { data: Seq::empty(), fin: false },
        send_state: RequestSendState::Initial,
        recv_state: RequestRecvState::WaitingHeaders,
        state: StreamState::Open,
        recv_headers: Seq::empty(),
        recv_body: Seq::empty(),
        is_head_request: false,
        is_connect_request: false,
        is_connect: false,
        qpack_blocked: false,
        qpack_ricnt: 0,
        qpack_blocked_header: None,
    }
}

/// Appends a frame of type `t` carrying `payload` to `out`.
fn push_frame(out: &mut Vec<u8>, t: u64, payload: &[u8])
    requires
        t <= VARINT_MAX_VALUE,
        payload@.len() <= VARINT_MAX_VALUE,
    ensures
        final(out)@ == old(out)@ + frame_encoding(t, payload@),
{
    push_varint(out, t);
    push_varint(out, payload.len() as u64);
    append_bytes(out, payload);
    assert(out@ =~= old(out)@ + frame_encoding(t, payload@));
}

/// A frame takes at most 16 bytes more than its payload.
proof fn lemma_frame_len(t: u64, payload: Seq<u8>)
    requires
        t <= VARINT_MAX_VALUE,
        payload.len() <= VARINT_MAX_VALUE,
    ensures
        frame_encoding(t, payload).len() <= payload.len() + 16,
{
    lemma_varint_roundtrip(t, Seq::empty());
    lemma_varint_roundtrip(payload.len() as u64, Seq::empty());
}

/// A header section this side sends is what the peer reads: a HEADERS
/// frame at the front of what a stream received, while it waits for
/// headers, hands up the encoded section unchanged and leaves the rest.
pub proof fn lemma_headers_frame_reads_back(v: RequestStreamView, encoded: Seq<u8>, rest: Seq<u8>)
    requires
        encoded.len() <= VARINT_MAX_VALUE,
        frame_encoding(0x01, encoded).len() <= usize::MAX,
        v.recv.data == frame_encoding(0x01, encoded) + rest,
        v.recv_state == RequestRecvState::WaitingHeaders,
    ensures
        raw_step(v) == (
            Ok::<Option<RawView>, Error>(Some(RawView::Headers(encoded))),
            RequestStreamView {
                recv: RecvBufferView { data: rest, ..v.recv },
                recv_state: RequestRecvState::ReceivingBody,
                ..v
            },
        ),
{
    lemma_frame_head_roundtrip(0x01, encoded, rest);
    let f = frame_encoding(0x01, encoded);
    let h = f.len() - encoded.len();
    assert(v.recv.data.subrange(h, f.len() as int) =~= encoded);
    assert(v.recv.data.skip(f.len() as int) =~= rest);
}

/// Body data this side sends is what the peer reads: a DATA frame at the
/// front of what a stream received, once its headers came, hands up the
/// data, adds it to the body and leaves the rest.
pub proof fn lemma_data_frame_reads_back(v: RequestStreamView, data: Seq<u8>, rest: Seq<u8>)
    requires
        data.len() <= VARINT_MAX_VALUE,
        frame_encoding(0x00, data).len() <= usize::MAX,
        v.recv.data == frame_encoding(0x00, data) + rest,
        v.recv_state == RequestRecvState::ReceivingBody,
    ensures
        raw_step(v) == (
            Ok::<Option<RawView>, Error>(Some(RawView::Data(data))),
            RequestStreamView {
                recv: RecvBufferView { data: rest, ..v.recv },
                recv_body: v.recv_body + data,
                ..v
            },
        ),
{
    lemma_frame_head_roundtrip(0x00, data, rest);
    let f = frame_encoding(0x00, data);
    let h = f.len() - data.len();
    assert(v.recv.data.subrange(h, f.len() as int) =~= data);
    assert(v.recv.data.skip(f.len() as int) =~= rest);
}

/// An HTTP/3 request stream.
#[derive(Debug)]
pub struct RequestStream {
    stream_id: u64,
    send_buf: SendBuffer,
    recv_buf: RecvBuffer,
    send_state: RequestSendState,
    recv_state: RequestRecvState,
    state: StreamState,
    recv_headers: Vec<Header>,
    recv_body: Vec<u8>,
    is_head_request: bool,
    is_connect_request: bool,
    is_connect: bool,
    qpack_blocked: bool,
    qpack_ricnt: u64,
    qpack_blocked_header: Option<(Vec<u8>, bool)>,
}

impl View for RequestStream {
    type V = RequestStreamView;

    closed spec fn view(&self) -> RequestStreamView {
        RequestStreamView {
            stream_id: self.stream_id,
            send: self.send_buf@,
            recv: self.recv_buf@,
            send_state: self.send_state,
            recv_state: self.recv_state,
            state: self.state,
            recv_headers: self.recv_headers@.map_values(|h: Header| h@),
            recv_body: self.recv_body@,
            is_head_request: self.is_head_request,
            is_connect_request: self.is_connect_request,
            is_connect: self.is_connect,
            qpack_blocked: self.qpack_blocked,
            qpack_ricnt: self.qpack_ricnt,
            qpack_blocked_header: match self.qpack_blocked_header {
                Some((b, t)) => Some((b@, t)),
                None => None,
            },
        }
    }
}

impl RequestStream {
    /// A new open request stream with ID `stream_id`.
    pub fn new(stream_id: u64) -> (r: RequestStream)
        ensures
            r@ == request_stream_new(stream_id),
    {
        let r = RequestStream {
            stream_id,
            send_buf: SendBuffer::new(),
            recv_buf: RecvBuffer::new(),
            send_state: RequestSendState::Initial,
            recv_state: RequestRecvState::WaitingHeaders,
            state: StreamState::Open,
            recv_headers: Vec::new(),
            recv_body: Vec::new(),
            is_head_request: false,
            is_connect_request: false,
            is_connect: false,
            qpack_blocked: false,
            qpack_ricnt: 0,
            qpack_blocked_header: None,
        };
        assert(r@.recv_headers =~= Seq::<HeaderView>::empty());
        r
    }

    /// The stream ID.
    pub fn stream_id(&self) -> (r: u64)
        ensures
            r == self@.stream_id,
    {
        self.stream_id
    }

    /// The state of the stream's two directions.
    pub fn state(&self) -> (r: StreamState)
        ensures
            r == self@.state,
    {
        self.state
    }

    /// The state of the stream's two directions, to change it.
    pub fn state_mut(&mut self) -> (r: &mut StreamState)
        ensures
            *r == old(self)@.state,
            final(self)@ == (RequestStreamView { state: *final(r), ..old(self)@ }),
    {
        &mut self.state
    }

    /// Queues a HEADERS frame carrying `encoded`, a QPACK-encoded field
    /// section; `is_interim` marks a 1xx response, `fin` ends the stream.
    /// See [`send_headers_step`].
    pub fn send_encoded_headers(&mut self, encoded: &[u8], fin: bool, is_interim: bool) -> (r: Result<(), Error>)
        requires
            encoded@.len() <= VARINT_MAX_VALUE,
            old(self)@.send.data.len() + encoded@.len() + 16 <= usize::MAX,
        ensures
            (r, final(self)@) == send_headers_step(old(self)@, encoded@, fin, is_interim),
    {
        if !self.state.can_send() {
            return Err(Error::StreamClosed(self.stream_id));
        }
        let after_headers = self.send_state == RequestSendState::HeadersSent
            || self.send_state == RequestSendState::SendingBody;
        if after_headers && (self.is_connect || is_interim) {
            return Err(Error::StreamError(ErrorCode::FrameUnexpected));
        }
        if self.send_state == RequestSendState::TrailersSent || self.send_state == RequestSendState::Complete {
            return Err(Error::StreamError(ErrorCode::FrameUnexpected));
        }
        if is_interim && fin {
            return Err(Error::StreamError(ErrorCode::MessageError));
        }
        let mut frame: Vec<u8> = Vec::new();
        push_frame(&mut frame, 0x01, encoded);
        proof {
            lemma_frame_len(0x01, encoded@);
        }
        self.send_buf.push(frame.as_slice());
        self.send_state = if after_headers {
            RequestSendState::TrailersSent
        } else if is_interim {
            RequestSendState::InterimResponseSent
        } else {
            RequestSendState::HeadersSent
        };
        if fin {
            self.send_buf.set_fin();
            self.state.close_local();
            self.send_state = RequestSendState::Complete;
        }
        Ok(())
    }

    /// Queues `data` as body; `fin` ends the stream. See [`send_body_step`].
    pub fn send_body(&mut self, data: &[u8], fin: bool) -> (r: Result<(), Error>)
        requires
            data@.len() <= VARINT_MAX_VALUE,
            old(self)@.send.data.len() + data@.len() + 16 <= usize::MAX,
        ensures
            (r, final(self)@) == send_body_step(old(self)@, data@, fin),
    {
        if !self.state.can_send() {
            return Err(Error::StreamClosed(self.stream_id));
        }
        if !(self.send_state == RequestSendState::HeadersSent || self.send_state == RequestSendState::SendingBody) {
            return Err(Error::StreamError(ErrorCode::FrameUnexpected));
        }
        if data.len() > 0 {
            let mut frame: Vec<u8> = Vec::new();
            push_frame(&mut frame, 0x00, data);
            proof {
                lemma_frame_len(0x00, data@);
            }
            self.send_buf.push(frame.as_slice());
            self.send_state = RequestSendState::SendingBody;
        }
        if fin {
            self.send_buf.set_fin();
            self.state.close_local();
            self.send_state = RequestSendState::Complete;
        }
        Ok(())
    }

    /// Takes in `data` the peer sent; `fin` where the stream ended with it.
    pub fn receive(&mut self, data: &[u8], fin: bool)
        requires
            old(self)@.recv.data.len() + data@.len() <= usize::MAX,
        ensures
            final(self)@ == (RequestStreamView {
                recv: RecvBufferView { data: old(self)@.recv.data + data@, fin: old(self)@.recv.fin || fin },
                ..old(self)@
            }),
    {
        self.recv_buf.push(data);
        if fin {
            self.recv_buf.set_fin();
        }
    }

    /// Reads what the received frames carry, up to the next thing to hand
    /// up; field sections stay encoded for the caller's QPACK decoder. See
    /// [`raw_step`].
    pub fn process_raw(&mut self) -> (r: Result<Option<RawReceivedData>, Error>)
        ensures
            raw_result(r) == raw_step(old(self)@).0,
            final(self)@ == raw_step(old(self)@).1,
    {
        loop
            invariant
                raw_step(self@) == raw_step(old(self)@),
            decreases self@.recv.data.len(),
        {
            let ghost v = self@;
            let data = self.recv_buf.peek();
            let fin = self.recv_buf.is_fin();
            if data.len() == 0 {
                if fin && self.recv_state != RequestRecvState::Complete {
                    if self.recv_state == RequestRecvState::WaitingHeaders {
                        return Err(Error::StreamError(ErrorCode::MessageError));
                    }
                    self.state.close_remote();
                    self.recv_state = RequestRecvState::Complete;
                    return Ok(Some(RawReceivedData::StreamEnd));
                }
                return Ok(None);
            }
            let (t, h, len) = match read_frame_head(data) {
                None => {
                    if fin {
                        return Err(Error::ConnectionError(ErrorCode::FrameError));
                    }
                    return Ok(None);
                },
                Some(x) => x,
            };
            if t == 0x02 || t == 0x06 || t == 0x08 || t == 0x09 {
                return Err(Error::ConnectionError(ErrorCode::FrameUnexpected));
            }
            if (h as u128) + (len as u128) > usize::MAX as u128 {
                return Err(Error::ConnectionError(ErrorCode::FrameError));
            }
            let total: usize = h + len as usize;
            if data.len() < total {
                if fin {
                    return Err(Error::ConnectionError(ErrorCode::FrameError));
                }
                return Ok(None);
            }
            if t == 0x04 || t == 0x03 || t == 0x05 {
                return Err(Error::ConnectionError(ErrorCode::FrameUnexpected));
            }
            let mut payload: Vec<u8> = Vec::new();
            append_bytes(&mut payload, &data[h..total]);
            assert(payload@ =~= v.recv.data.subrange(h as int, total as int));
            self.recv_buf.consume(total);
            assert(self@ == (RequestStreamView {
                recv: RecvBufferView { data: v.recv.data.skip(total as int), ..v.recv },
                ..v
            }));
            if t == 0x01 {
                if self.recv_state == RequestRecvState::TrailersReceived {
                    return Err(Error::ConnectionError(ErrorCode::FrameUnexpected));
                }
                if self.recv_state == RequestRecvState::ReceivingBody {
                    if self.is_connect {
                        return Err(Error::ConnectionError(ErrorCode::FrameUnexpected));
                    }
                    self.recv_state = RequestRecvState::TrailersReceived;
                    return Ok(Some(RawReceivedData::Trailers(payload)));
                }
                self.recv_state = RequestRecvState::ReceivingBody;
                return Ok(Some(RawReceivedData::Headers(payload)));
            } else if t == 0x00 {
                if self.recv_state == RequestRecvState::WaitingHeaders
                    || self.recv_state == RequestRecvState::TrailersReceived {
                    return Err(Error::ConnectionError(ErrorCode::FrameUnexpected));
                }
                append_bytes(&mut self.recv_body, payload.as_slice());
                return Ok(Some(RawReceivedData::Data(payload)));
            } else if t == 0x07 || t == 0x0d {
                return Err(Error::ConnectionError(ErrorCode::FrameUnexpected));
            }
        }
    }

    /// Records that the headers just read were an interim (1xx) response,
    /// so that the next header section is the final response again.
    pub fn notify_informational(&mut self)
        ensures
            final(self)@ == (if old(self)@.recv_state == RequestRecvState::ReceivingBody {
                RequestStreamView { recv_state: RequestRecvState::WaitingHeaders, ..old(self)@ }
            } else {
                old(self)@
            }),
    {
        if self.recv_state == RequestRecvState::ReceivingBody {
            self.recv_state = RequestRecvState::WaitingHeaders;
        }
    }

    /// Records the decoded headers.
    pub fn set_recv_headers(&mut self, headers: Vec<Header>)
        ensures
            final(self)@ == (RequestStreamView { recv_headers: headers@.map_values(|h: Header| h@), ..old(self)@ }),
    {
        self.recv_headers = headers;
    }

    /// The bytes waiting to be sent, and whether the stream end goes out
    /// with them: set to end and nothing else pending.
    pub fn get_send_data(&self) -> (r: (&[u8], bool))
        ensures
            r.0@ == self@.send.data,
            r.1 == (self@.send.fin && !(self@.send.data.len() > 0 || (self@.send.fin && !self@.send.fin_sent))),
    {
        (self.send_buf.peek(), self.send_buf.is_fin() && !self.send_buf.has_pending())
    }

    /// Drops the first `len` bytes, which went out.
    pub fn consume_send_data(&mut self, len: usize)
        requires
            len <= old(self)@.send.data.len(),
        ensures
            final(self)@ == (RequestStreamView {
                send: SendBufferView { data: old(self)@.send.data.skip(len as int), ..old(self)@.send },
                ..old(self)@
            }),
    {
        self.send_buf.consume(len);
    }

    /// Records that the stream end went out.
    pub fn mark_fin_sent(&mut self)
        ensures
            final(self)@ == (RequestStreamView { send: SendBufferView { fin_sent: true, ..old(self)@.send }, ..old(self)@ }),
    {
        self.send_buf.mark_fin_sent();
    }

    /// Whether data or the stream end waits to be sent.
    pub fn has_pending_send(&self) -> (r: bool)
        ensures
            r == (self@.send.data.len() > 0 || (self@.send.fin && !self@.send.fin_sent)),
    {
        self.send_buf.has_pending()
    }

    /// The decoded headers recorded.
    pub fn received_headers(&self) -> (r: &[Header])
        ensures
            r@.map_values(|h: Header| h@) == self@.recv_headers,
    {
        self.recv_headers.as_slice()
    }

    /// All body data received.
    pub fn received_body(&self) -> (r: &[u8])
        ensures
            r@ == self@.recv_body,
    {
        self.recv_body.as_slice()
    }

    /// Records whether the request is a HEAD request.
    pub fn set_is_head_request(&mut self, v: bool)
        ensures
            final(self)@ == (RequestStreamView { is_head_request: v, ..old(self)@ }),
    {
        self.is_head_request = v;
    }

    /// Whether the request is a HEAD request.
    pub fn is_head_request(&self) -> (r: bool)
        ensures
            r == self@.is_head_request,
    {
        self.is_head_request
    }

    /// Records that this side sent a plain CONNECT request.
    pub fn set_connect_request(&mut self)
        ensures
            final(self)@ == (RequestStreamView { is_connect_request: true, ..old(self)@ }),
    {
        self.is_connect_request = true;
    }

    /// Whether this side sent a plain CONNECT request.
    pub fn is_connect_request(&self) -> (r: bool)
        ensures
            r == self@.is_connect_request,
    {
        self.is_connect_request
    }

    /// Marks the stream as a CONNECT tunnel: after its headers, only data
    /// may follow (RFC 9114 Section 4.4).
    pub fn set_connect(&mut self)
        ensures
            final(self)@ == (RequestStreamView { is_connect: true, ..old(self)@ }),
    {
        self.is_connect = true;
    }

    /// Whether reading waits on the QPACK decoder.
    pub fn is_qpack_blocked(&self) -> (r: bool)
        ensures
            r == self@.qpack_blocked,
    {
        self.qpack_blocked
    }

    /// Records whether reading waits on the QPACK decoder, for which
    /// Required Insert Count, and the section that waits.
    pub fn set_qpack_blocked(&mut self, blocked: bool, ricnt: u64, blocked_header: Option<(Vec<u8>, bool)>)
        ensures
            final(self)@ == (RequestStreamView {
                qpack_blocked: blocked,
                qpack_ricnt: ricnt,
                qpack_blocked_header: match blocked_header {
                    Some((b, t)) => Some((b@, t)),
                    None => None,
                },
                ..old(self)@
            }),
    {
        self.qpack_blocked = blocked;
        self.qpack_ricnt = ricnt;
        self.qpack_blocked_header = blocked_header;
    }

    /// The Required Insert Count the stream waits for.
    pub fn qpack_ricnt(&self) -> (r: u64)
        ensures
            r == self@.qpack_ricnt,
    {
        self.qpack_ricnt
    }

    /// Takes the section that waits on the QPACK decoder, leaving none.
    pub fn take_qpack_blocked_header(&mut self) -> (r: Option<(Vec<u8>, bool)>)
        ensures
            (match r {
                Some((b, t)) => Some((b@, t)),
                None => None,
            }) == old(self)@.qpack_blocked_header,
            final(self)@ == (RequestStreamView { qpack_blocked_header: None, ..old(self)@ }),
    {
        let r = self.qpack_blocked_header.take();
        r
    }
}

} // verus!
