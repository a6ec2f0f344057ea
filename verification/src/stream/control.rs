//! HTTP/3 control streams (RFC 9114 Section 6.2.1): the stream type, then
//! SETTINGS, then further control frames such as GOAWAY.

use vstd::prelude::*;
use crate::bytes_be::append_bytes;
use crate::error::{Error, ErrorCode};
use crate::frame::{Frame, FrameView, decode_frame_payload, frame_decoding, frame_encoding, frame_head,
    is_http2_frame_type, lemma_frame_head_roundtrip, read_frame_head};
use crate::settings::{Setting, Settings, lemma_entries_bounded, setting_wire_spec, settings_entries};
use crate::varint::{VarInt, VARINT_MAX_VALUE, push_varint, varint_encoding, lemma_varint_roundtrip};
use crate::webtransport::stream::BIDIRECTIONAL_SIGNAL_VALUE;
use super::{RecvBuffer, RecvBufferView, SendBuffer, SendBufferView};

verus! {

/// Where the receiving side of a control stream stands.
#[derive(Debug, Clone, Copy, PartialEq, Eq, Structural)]
pub enum ControlRecvState {
    /// Waiting for the stream type.
    WaitingType,
    /// Waiting for the first frame, which must be SETTINGS.
    WaitingSettings,
    /// SETTINGS came.
    Ready,
}

/// The abstract state of a control stream's receiving side.
pub struct ControlRecvView {
    /// The stream ID, once known.
    pub stream_id: Option<u64>,
    /// What was received and not yet read.
    pub recv: RecvBufferView,
    /// How far reading got.
    pub recv_state: ControlRecvState,
}

/// The abstract result of reading a control stream.
pub open spec fn control_result(r: Result<Option<Frame>, Error>) -> Result<Option<FrameView>, Error> {
    match r {
        Ok(Some(f)) => Ok(Some(f@)),
        Ok(None) => Ok(None),
        Err(e) => Err(e),
    }
}

/// What reading a control stream gives and leaves. With nothing buffered,
/// nothing yet. First the stream type, which must be 0x00 (else
/// `StreamCreationError`). Then the frame at the front: an HTTP/2 type is
/// `FrameUnexpected`; one not yet complete gives nothing yet; CANCEL_PUSH
/// and PUSH_PROMISE are `FrameUnexpected`, as server push is not offered;
/// a payload [`frame_decoding`] refuses gives its code. These leave the
/// frame buffered; a decoded one is taken off. The first must be SETTINGS
/// (else `MissingSettings`); afterwards SETTINGS, DATA and HEADERS are
/// `FrameUnexpected` (Sections 6.2.1, 7.2.4) and WT_STREAM is `FrameError`;
/// any other frame is handed up.
pub open spec fn control_step(v: ControlRecvView) -> (Result<Option<FrameView>, Error>, ControlRecvView)
    decreases v.recv.data.len(),
{
    let data = v.recv.data;
    if data.len() == 0 {
        (Ok(None), v)
    } else if v.recv_state == ControlRecvState::WaitingType {
        if data[0] != 0x00 {
            (Err(Error::ConnectionError(ErrorCode::StreamCreationError)), v)
        } else {
            control_step(
                ControlRecvView {
                    recv: RecvBufferView { data: data.skip(1), ..v.recv },
                    recv_state: ControlRecvState::WaitingSettings,
                    ..v
                },
            )
        }
    } else {
        match frame_head(data) {
            None => (Ok(None), v),
            Some((t, h, len)) => {
                let total = h + len;
                if is_http2_frame_type(t) {
                    (Err(Error::ConnectionError(ErrorCode::FrameUnexpected)), v)
                } else if total > usize::MAX {
                    (Err(Error::ConnectionError(ErrorCode::FrameError)), v)
                } else if data.len() < total {
                    (Ok(None), v)
                } else if t == 0x03 || t == 0x05 {
                    (Err(Error::ConnectionError(ErrorCode::FrameUnexpected)), v)
                } else {
                    match frame_decoding(t, data.subrange(h as int, total)) {
                        Err(code) => (Err(Error::ConnectionError(code)), v),
                        Ok(f) => {
                            let w = ControlRecvView { recv: RecvBufferView { data: data.skip(total), ..v.recv }, ..v };
                            if v.recv_state == ControlRecvState::WaitingSettings {
                                if f is Settings {
                                    (Ok(Some(f)), ControlRecvView { recv_state: ControlRecvState::Ready, ..w })
                                } else {
                                    (Err(Error::ConnectionError(ErrorCode::MissingSettings)), w)
                                }
                            } else if f is Settings || f is Data || f is Headers {
                                (Err(Error::ConnectionError(ErrorCode::FrameUnexpected)), w)
                            } else if f matches FrameView::Unknown(ft, _) && ft == BIDIRECTIONAL_SIGNAL_VALUE {
                                (Err(Error::ConnectionError(ErrorCode::FrameError)), w)
                            } else {
                                (Ok(Some(f)), w)
                            }
                        },
                    }
                }
            },
        }
    }
}

/// Where the sending side of a control stream stands.
#[derive(Debug, Clone, Copy, PartialEq, Eq, Structural)]
pub enum ControlSendState {
    /// SETTINGS not sent yet.
    Initial,
    /// SETTINGS sent.
    Ready,
}

/// The abstract state of this side's control stream.
pub struct ControlSendView {
    /// The stream ID, once known.
    pub stream_id: Option<u64>,
    /// What waits to be sent.
    pub send: SendBufferView,
    /// Whether SETTINGS went out.
    pub send_state: ControlSendState,
}

/// The pairs of identifier and value of `s`, in order (RFC 9114 Section 7.2.4).
pub open spec fn settings_payload_encoding(s: Seq<Setting>) -> Seq<u8>
    decreases s.len(),
{
    if s.len() == 0 {
        Seq::empty()
    } else {
        settings_payload_encoding(s.drop_last()) + varint_encoding(setting_wire_spec(s.last()).0) + varint_encoding(
            setting_wire_spec(s.last()).1,
        )
    }
}

/// What opens this side's control stream: the stream type 0x00, then a
/// SETTINGS frame with every entry of `s`.
pub open spec fn control_stream_start(s: Settings) -> Seq<u8> {
    seq![0x00u8] + frame_encoding(0x04, settings_payload_encoding(settings_entries(s)))
}

/// This side's control stream.
#[derive(Debug)]
pub struct ControlStreamSend {
    stream_id: Option<u64>,
    send_buf: SendBuffer,
    send_state: ControlSendState,
}

impl View for ControlStreamSend {
    type V = ControlSendView;

    closed spec fn view(&self) -> ControlSendView {
        ControlSendView { stream_id: self.stream_id, send: self.send_buf@, send_state: self.send_state }
    }
}

impl Default for ControlStreamSend {
    fn default() -> (r: ControlStreamSend)
        ensures
            r@ == (ControlSendView {
                stream_id: None,
                send: SendBufferView { data: Seq::empty(), fin: false, fin_sent: false },
                send_state: ControlSendState::Initial,
            }),
    {
        ControlStreamSend::new()
    }
}

impl ControlStreamSend {
    /// A control stream with nothing sent.
    pub fn new() -> (r: ControlStreamSend)
        ensures
            r@ == (ControlSendView {
                stream_id: None,
                send: SendBufferView { data: Seq::empty(), fin: false, fin_sent: false },
                send_state: ControlSendState::Initial,
            }),
    {
        ControlStreamSend { stream_id: None, send_buf: SendBuffer::new(), send_state: ControlSendState::Initial }
    }

    /// Records the stream ID.
    pub fn set_stream_id(&mut self, stream_id: u64)
        ensures
            final(self)@ == (ControlSendView { stream_id: Some(stream_id), ..old(self)@ }),
    {
        self.stream_id = Some(stream_id);
    }

    /// The stream ID, once known.
    pub fn stream_id(&self) -> (r: Option<u64>)
        ensures
            r == self@.stream_id,
    {
        self.stream_id
    }

    /// Queues the stream type and SETTINGS with every entry of `settings`;
    /// only the first call sends anything.
    pub fn send_settings(&mut self, settings: &Settings)
        requires
            old(self)@.send.data.len() + 256 <= usize::MAX,
        ensures
            final(self)@ == (if old(self)@.send_state == ControlSendState::Initial {
                ControlSendView {
                    send: SendBufferView { data: old(self)@.send.data + control_stream_start(*settings), ..old(self)@.send },
                    send_state: ControlSendState::Ready,
                    ..old(self)@
                }
            } else {
                old(self)@
            }),
    {
        if self.send_state != ControlSendState::Initial {
            return;
        }
        let mut entries = settings.iter();
        let mut wt = match &settings.wt_settings {
            Some(w) => w.iter(),
            None => Vec::new(),
        };
        entries.append(&mut wt);
        proof {
            lemma_entries_bounded(*settings);
        }
        assert(entries@ =~= settings_entries(*settings));
        let mut payload: Vec<u8> = Vec::new();
        let mut i: usize = 0;
        while i < entries.len()
            invariant
                i <= entries@.len(),
                entries@.len() <= 12,
                payload@ == settings_payload_encoding(entries@.take(i as int)),
                payload@.len() <= 16 * i,
            decreases entries.len() - i,
        {
            let (id, value) = entries[i].as_wire();
            let ghost before = payload@;
            push_varint(&mut payload, id.get());
            push_varint(&mut payload, value.get());
            proof {
                lemma_varint_roundtrip(id@, Seq::empty());
                lemma_varint_roundtrip(value@, Seq::empty());
                let t = entries@.take(i + 1);
                assert(t.drop_last() =~= entries@.take(i as int));
                assert(t.last() == entries@[i as int]);
            }
            i = i + 1;
        }
        assert(entries@.take(entries@.len() as int) =~= entries@);
        let mut out: Vec<u8> = Vec::new();
        out.push(0x00);
        let mut frame: Vec<u8> = Vec::new();
        push_varint(&mut frame, 0x04);
        push_varint(&mut frame, payload.len() as u64);
        frame.append(&mut payload);
        proof {
            lemma_varint_roundtrip(0x04, Seq::empty());
            lemma_varint_roundtrip(settings_payload_encoding(settings_entries(*settings)).len() as u64, Seq::empty());
        }
        out.append(&mut frame);
        assert(out@ =~= control_stream_start(*settings));
        self.send_buf.push(out.as_slice());
        self.send_state = ControlSendState::Ready;
    }

    /// Queues GOAWAY carrying `id` (RFC 9114 Section 7.2.6); refused with
    /// `ClosedCriticalStream` before SETTINGS went out.
    pub fn send_goaway(&mut self, id: VarInt) -> (r: Result<(), Error>)
        requires
            old(self)@.send.data.len() + 32 <= usize::MAX,
        ensures
            old(self)@.send_state != ControlSendState::Ready ==> r == Err::<(), Error>(
                Error::ConnectionError(ErrorCode::ClosedCriticalStream),
            ) && final(self)@ == old(self)@,
            old(self)@.send_state == ControlSendState::Ready ==> r is Ok && final(self)@ == (ControlSendView {
                send: SendBufferView {
                    data: old(self)@.send.data + frame_encoding(0x07, varint_encoding(id@)),
                    ..old(self)@.send
                },
                ..old(self)@
            }),
    {
        if self.send_state != ControlSendState::Ready {
            return Err(Error::ConnectionError(ErrorCode::ClosedCriticalStream));
        }
        let mut body: Vec<u8> = Vec::new();
        push_varint(&mut body, id.get());
        proof {
            lemma_varint_roundtrip(id@, Seq::empty());
        }
        let mut frame: Vec<u8> = Vec::new();
        push_varint(&mut frame, 0x07);
        push_varint(&mut frame, body.len() as u64);
        let ghost b = body@;
        frame.append(&mut body);
        proof {
            lemma_varint_roundtrip(0x07, Seq::empty());
            lemma_varint_roundtrip(b.len() as u64, Seq::empty());
        }
        assert(frame@ =~= frame_encoding(0x07, varint_encoding(id@)));
        self.send_buf.push(frame.as_slice());
        Ok(())
    }

    /// The bytes waiting to be sent.
    pub fn get_data(&self) -> (r: &[u8])
        ensures
            r@ == self@.send.data,
    {
        self.send_buf.peek()
    }

    /// Drops the first `len` bytes, which went out.
    pub fn consume_data(&mut self, len: usize)
        requires
            len <= old(self)@.send.data.len(),
        ensures
            final(self)@ == (ControlSendView {
                send: SendBufferView { data: old(self)@.send.data.skip(len as int), ..old(self)@.send },
                ..old(self)@
            }),
    {
        self.send_buf.consume(len);
    }

    /// Whether data waits to be sent.
    pub fn has_pending(&self) -> (r: bool)
        ensures
            r == (self@.send.data.len() > 0 || (self@.send.fin && !self@.send.fin_sent)),
    {
        self.send_buf.has_pending()
    }
}

/// A GOAWAY this side sends is what the peer reads: at the front of what
/// a control stream past its SETTINGS received, it is handed up with the
/// same ID and taken off.
pub proof fn lemma_goaway_reads_back(v: ControlRecvView, id: u64, rest: Seq<u8>)
    requires
        id <= VARINT_MAX_VALUE,
        v.recv_state == ControlRecvState::Ready,
        v.recv.data == frame_encoding(0x07, varint_encoding(id)) + rest,
    ensures
        control_step(v) == (
            Ok::<Option<FrameView>, Error>(Some(FrameView::Goaway(id))),
            ControlRecvView { recv: RecvBufferView { data: rest, ..v.recv }, ..v },
        ),
{
    let body = varint_encoding(id);
    lemma_varint_roundtrip(id, Seq::empty());
    assert(body + Seq::<u8>::empty() =~= body);
    lemma_frame_head_roundtrip(0x07, body, rest);
    let f = frame_encoding(0x07, body);
    let h = f.len() - body.len();
    assert(v.recv.data.subrange(h, f.len() as int) =~= body);
    assert(v.recv.data.skip(f.len() as int) =~= rest);
}

/// The receiving side of the peer's control stream.
#[derive(Debug)]
pub struct ControlStreamRecv {
    stream_id: Option<u64>,
    recv_buf: RecvBuffer,
    recv_state: ControlRecvState,
}

impl View for ControlStreamRecv {
    type V = ControlRecvView;

    closed spec fn view(&self) -> ControlRecvView {
        ControlRecvView { stream_id: self.stream_id, recv: self.recv_buf@, recv_state: self.recv_state }
    }
}

impl Default for ControlStreamRecv {
    fn default() -> (r: ControlStreamRecv)
        ensures
            r@ == (ControlRecvView {
                stream_id: None,
                recv: RecvBufferView { data: Seq::empty(), fin: false },
                recv_state: ControlRecvState::WaitingType,
            }),
    {
        ControlStreamRecv::new()
    }
}

impl ControlStreamRecv {
    /// A control stream whose type has not been read yet.
    pub fn new() -> (r: ControlStreamRecv)
        ensures
            r@ == (ControlRecvView {
                stream_id: None,
                recv: RecvBufferView { data: Seq::empty(), fin: false },
                recv_state: ControlRecvState::WaitingType,
            }),
    {
        ControlStreamRecv { stream_id: None, recv_buf: RecvBuffer::new(), recv_state: ControlRecvState::WaitingType }
    }

    /// Records the stream ID.
    pub fn set_stream_id(&mut self, stream_id: u64)
        ensures
            final(self)@ == (ControlRecvView { stream_id: Some(stream_id), ..old(self)@ }),
    {
        self.stream_id = Some(stream_id);
    }

    /// The stream ID, once known.
    pub fn stream_id(&self) -> (r: Option<u64>)
        ensures
            r == self@.stream_id,
    {
        self.stream_id
    }

    /// Records that the caller already read the stream type.
    pub fn skip_stream_type(&mut self)
        ensures
            final(self)@ == (if old(self)@.recv_state == ControlRecvState::WaitingType {
                ControlRecvView { recv_state: ControlRecvState::WaitingSettings, ..old(self)@ }
            } else {
                old(self)@
            }),
    {
        if self.recv_state == ControlRecvState::WaitingType {
            self.recv_state = ControlRecvState::WaitingSettings;
        }
    }

    /// Takes in `data` the peer sent.
    pub fn receive(&mut self, data: &[u8])
        requires
            old(self)@.recv.data.len() + data@.len() <= usize::MAX,
        ensures
            final(self)@ == (ControlRecvView {
                recv: RecvBufferView { data: old(self)@.recv.data + data@, ..old(self)@.recv },
                ..old(self)@
            }),
    {
        self.recv_buf.push(data);
    }

    /// Whether received data waits to be read; at the stream end that means
    /// a frame was cut short (RFC 9114 Section 7.1).
    pub fn has_pending_data(&self) -> (r: bool)
        ensures
            r == (self@.recv.data.len() > 0),
    {
        self.recv_buf.peek().len() != 0
    }

    /// Whether SETTINGS came.
    pub fn is_ready(&self) -> (r: bool)
        ensures
            r == (self@.recv_state == ControlRecvState::Ready),
    {
        self.recv_state == ControlRecvState::Ready
    }

    /// Reads the next control frame. See [`control_step`].
    pub fn process(&mut self) -> (r: Result<Option<Frame>, Error>)
        ensures
            control_result(r) == control_step(old(self)@).0,
            final(self)@ == control_step(old(self)@).1,
    {
        loop
            invariant
                control_step(self@) == control_step(old(self)@),
            decreases self@.recv.data.len(),
        {
            let ghost v = self@;
            let data = self.recv_buf.peek();
            if data.len() == 0 {
                return Ok(None);
            }
            if self.recv_state == ControlRecvState::WaitingType {
                if data[0] != 0x00 {
                    return Err(Error::ConnectionError(ErrorCode::StreamCreationError));
                }
                self.recv_buf.consume(1);
                self.recv_state = ControlRecvState::WaitingSettings;
            } else {
                let (t, h, len) = match read_frame_head(data) {
                    None => {
                        return Ok(None);
                    },
                    Some(x) => x,
                };
                if t == 0x02 || t == 0x06 || t == 0x08 || t == 0x09 {
                    return Err(Error::ConnectionError(ErrorCode::FrameUnexpected));
                }
                if (h as u128) + (len as u128) > usize::MAX as u128 {
                    return Err(Error::ConnectionError(ErrorCode::FrameError));
                }
                let total: usize = h + len as usize;
                if data.len() < total {
                    return Ok(None);
                }
                if t == 0x03 || t == 0x05 {
                    return Err(Error::ConnectionError(ErrorCode::FrameUnexpected));
                }
                let mut payload: Vec<u8> = Vec::new();
                append_bytes(&mut payload, &data[h..total]);
                assert(payload@ =~= v.recv.data.subrange(h as int, total as int));
                let frame = match decode_frame_payload(t, payload) {
                    Err(code) => {
                        return Err(Error::ConnectionError(code));
                    },
                    Ok(f) => f,
                };
                self.recv_buf.consume(total);
                if self.recv_state == ControlRecvState::WaitingSettings {
                    if let Frame::Settings(_) = frame {
                        self.recv_state = ControlRecvState::Ready;
                        return Ok(Some(frame));
                    }
                    return Err(Error::ConnectionError(ErrorCode::MissingSettings));
                }
                match frame {
                    Frame::Settings(_) | Frame::Data(_) | Frame::Headers(_) => {
                        return Err(Error::ConnectionError(ErrorCode::FrameUnexpected));
                    },
                    Frame::Unknown(ft, _) if ft == BIDIRECTIONAL_SIGNAL_VALUE => {
                        return Err(Error::ConnectionError(ErrorCode::FrameError));
                    },
                    _ => {
                        return Ok(Some(frame));
                    },
                }
            }
        }
    }
}

} // verus!
