//! WebTransport data streams (draft-ietf-webtrans-http3-15 Sections 4.2,
//! 4.3, 9.3, 9.4): the headers that open them, their per-stream state and
//! the classification of incoming unidirectional streams.

pub mod stream_type;

use vstd::prelude::*;
use crate::varint::{
    VARINT_MAX_VALUE, varint_encoding, varint_decoding, varint_len, push_varint, decode,
    DecodeError, lemma_varint_roundtrip,
};

verus! {

/// The stream type of a WebTransport unidirectional stream.
pub const UNIDIRECTIONAL_STREAM_TYPE: u64 = 0x54;

/// The signal value that opens a WebTransport bidirectional stream (WT_STREAM).
pub const BIDIRECTIONAL_SIGNAL_VALUE: u64 = 0x41;

/// The value and length of the variable-length integer at the start of `buf`.
fn decode_varint(buf: &[u8]) -> (r: Option<(u64, usize)>)
    ensures
        match varint_decoding(buf@) {
            None => r is None,
            Some((v, n)) => r == Some((v, n as usize)) && 1 <= n <= buf@.len(),
        },
{
    match decode(buf) {
        Ok((v, n)) => Some((v.get(), n)),
        Err(_) => None,
    }
}

/// The header at the start of a WebTransport stream.
#[derive(Debug, Clone, Copy, PartialEq, Eq, Structural)]
pub struct StreamHeader {
    /// The session ID (the stream ID of the CONNECT stream).
    pub session_id: u64,
}

/// Why a stream header could not be read.
#[derive(Debug, Clone, Copy, PartialEq, Eq, Structural)]
pub enum StreamHeaderDecodeError {
    /// The buffer ends before the header does.
    BufferTooShort,
    /// The stream type or signal value is not the expected one.
    InvalidFormat,
    /// The session ID is not a client-initiated bidirectional stream ID; the
    /// caller closes the connection with H3_ID_ERROR (Section 4).
    InvalidSessionId,
}

/// The session ID and header length of a header that starts with `tag`.
pub open spec fn header_decoding(buf: Seq<u8>, tag: u64) -> Result<(u64, nat), StreamHeaderDecodeError> {
    match varint_decoding(buf) {
        None => Err(StreamHeaderDecodeError::BufferTooShort),
        Some((t, n)) => if t != tag {
            Err(StreamHeaderDecodeError::InvalidFormat)
        } else {
            match varint_decoding(buf.skip(n as int)) {
                None => Err(StreamHeaderDecodeError::BufferTooShort),
                Some((s, m)) => if s % 4 != 0 {
                    Err(StreamHeaderDecodeError::InvalidSessionId)
                } else {
                    Ok((s, n + m))
                },
            }
        },
    }
}

/// What a checked header decoder returns for `buf`.
pub open spec fn header_result(buf: Seq<u8>, tag: u64) -> Result<(StreamHeader, usize), StreamHeaderDecodeError> {
    match header_decoding(buf, tag) {
        Ok((s, n)) => Ok(((StreamHeader { session_id: s }), n as usize)),
        Err(e) => Err(e),
    }
}

/// What an unchecked header decoder returns for `buf`.
pub open spec fn header_option(buf: Seq<u8>, tag: u64) -> Option<(StreamHeader, usize)> {
    match header_result(buf, tag) {
        Ok(h) => Some(h),
        Err(_) => None,
    }
}

/// The wire form of a header: the tag, then the session ID.
pub open spec fn header_encoding(tag: u64, session_id: u64) -> Seq<u8> {
    varint_encoding(tag) + varint_encoding(session_id)
}

impl StreamHeader {
    /// A header for `session_id`, which must be a client-initiated
    /// bidirectional stream ID.
    pub fn new(session_id: u64) -> (r: Result<StreamHeader, StreamHeaderDecodeError>)
        ensures
            session_id % 4 == 0 ==> r == Ok::<StreamHeader, StreamHeaderDecodeError>(
                (StreamHeader { session_id }),
            ),
            session_id % 4 != 0 ==> r == Err::<StreamHeader, StreamHeaderDecodeError>(
                StreamHeaderDecodeError::InvalidSessionId,
            ),
    {
        if session_id % 4 != 0 {
            return Err(StreamHeaderDecodeError::InvalidSessionId);
        }
        Ok(StreamHeader { session_id })
    }

    /// Appends the header of a unidirectional stream: type 0x54, then the
    /// session ID.
    pub fn encode_unidirectional(&self, buf: &mut Vec<u8>)
        requires
            self.session_id <= VARINT_MAX_VALUE,
        ensures
            final(buf)@ == old(buf)@ + header_encoding(UNIDIRECTIONAL_STREAM_TYPE, self.session_id),
    {
        push_varint(buf, UNIDIRECTIONAL_STREAM_TYPE);
        push_varint(buf, self.session_id);
        proof {
            assert(final(buf)@ =~= old(buf)@ + header_encoding(
                UNIDIRECTIONAL_STREAM_TYPE,
                self.session_id,
            ));
        }
    }

    /// Appends the header of a bidirectional stream: signal 0x41, then the
    /// session ID.
    pub fn encode_bidirectional(&self, buf: &mut Vec<u8>)
        requires
            self.session_id <= VARINT_MAX_VALUE,
        ensures
            final(buf)@ == old(buf)@ + header_encoding(BIDIRECTIONAL_SIGNAL_VALUE, self.session_id),
    {
        push_varint(buf, BIDIRECTIONAL_SIGNAL_VALUE);
        push_varint(buf, self.session_id);
        proof {
            assert(final(buf)@ =~= old(buf)@ + header_encoding(
                BIDIRECTIONAL_SIGNAL_VALUE,
                self.session_id,
            ));
        }
    }

    /// Reads a header that starts with `tag`.
    fn decode_checked(buf: &[u8], tag: u64) -> (r: Result<(StreamHeader, usize), StreamHeaderDecodeError>)
        ensures
            r == header_result(buf@, tag),
    {
        let (t, n) = match decode_varint(buf) {
            Some(x) => x,
            None => return Err(StreamHeaderDecodeError::BufferTooShort),
        };
        if t != tag {
            return Err(StreamHeaderDecodeError::InvalidFormat);
        }
        let rest = &buf[n..buf.len()];
        assert(rest@ =~= buf@.skip(n as int));
        let (session_id, m) = match decode_varint(rest) {
            Some(x) => x,
            None => return Err(StreamHeaderDecodeError::BufferTooShort),
        };
        if session_id % 4 != 0 {
            return Err(StreamHeaderDecodeError::InvalidSessionId);
        }
        Ok((StreamHeader { session_id }, n + m))
    }

    /// Reads a unidirectional stream header; `None` where the checked form
    /// fails.
    pub fn decode_unidirectional(buf: &[u8]) -> (r: Option<(StreamHeader, usize)>)
        ensures
            r == header_option(buf@, UNIDIRECTIONAL_STREAM_TYPE),
    {
        match Self::decode_checked(buf, UNIDIRECTIONAL_STREAM_TYPE) {
            Ok(h) => Some(h),
            Err(_) => None,
        }
    }

    /// Reads a unidirectional stream header, saying why it failed.
    pub fn decode_unidirectional_checked(buf: &[u8]) -> (r: Result<(StreamHeader, usize), StreamHeaderDecodeError>)
        ensures
            r == header_result(buf@, UNIDIRECTIONAL_STREAM_TYPE),
    {
        Self::decode_checked(buf, UNIDIRECTIONAL_STREAM_TYPE)
    }

    /// Reads a bidirectional stream header; `None` where the checked form
    /// fails.
    pub fn decode_bidirectional(buf: &[u8]) -> (r: Option<(StreamHeader, usize)>)
        ensures
            r == header_option(buf@, BIDIRECTIONAL_SIGNAL_VALUE),
    {
        match Self::decode_checked(buf, BIDIRECTIONAL_SIGNAL_VALUE) {
            Ok(h) => Some(h),
            Err(_) => None,
        }
    }

    /// Reads a bidirectional stream header, saying why it failed.
    pub fn decode_bidirectional_checked(buf: &[u8]) -> (r: Result<(StreamHeader, usize), StreamHeaderDecodeError>)
        ensures
            r == header_result(buf@, BIDIRECTIONAL_SIGNAL_VALUE),
    {
        Self::decode_checked(buf, BIDIRECTIONAL_SIGNAL_VALUE)
    }

    /// The length of the encoded header.
    pub fn encoded_size(&self) -> (r: usize)
        ensures
            r == 1 + varint_len(self.session_id),
    {
        let s = self.session_id;
        let id_len: usize = if s < 64 {
            1
        } else if s < 16_384 {
            2
        } else if s < 1_073_741_824 {
            4
        } else {
            8
        };
        1 + id_len
    }
}

/// A header read back from its encoding gives the same session ID and the
/// full length, whatever follows it.
pub proof fn lemma_stream_header_roundtrip(tag: u64, session_id: u64, rest: Seq<u8>)
    requires
        tag <= VARINT_MAX_VALUE,
        session_id <= VARINT_MAX_VALUE,
        session_id % 4 == 0,
    ensures
        header_decoding(header_encoding(tag, session_id) + rest, tag) == Ok::<(u64, nat), StreamHeaderDecodeError>(
            (session_id, varint_len(tag) + varint_len(session_id)),
        ),
{
    let tail = varint_encoding(session_id) + rest;
    lemma_varint_roundtrip(tag, tail);
    let all = header_encoding(tag, session_id) + rest;
    assert(all =~= varint_encoding(tag) + tail);
    assert(all.skip(varint_len(tag) as int) =~= tail);
    lemma_varint_roundtrip(session_id, rest);
}

/// The abstract state of a stream.
pub struct StreamView {
    /// The QUIC stream ID.
    pub stream_id: u64,
    /// The session ID.
    pub session_id: u64,
    /// Whether the stream is bidirectional.
    pub bidirectional: bool,
    /// Whether the header went out.
    pub header_sent: bool,
    /// Whether the header came in.
    pub header_received: bool,
    /// Bytes sent.
    pub bytes_sent: u64,
    /// Bytes received.
    pub bytes_received: u64,
}

/// A WebTransport stream.
#[derive(Debug)]
pub struct Stream {
    stream_id: u64,
    session_id: u64,
    bidirectional: bool,
    header_sent: bool,
    header_received: bool,
    bytes_sent: u64,
    bytes_received: u64,
}

impl View for Stream {
    type V = StreamView;

    closed spec fn view(&self) -> StreamView {
        StreamView {
            stream_id: self.stream_id,
            session_id: self.session_id,
            bidirectional: self.bidirectional,
            header_sent: self.header_sent,
            header_received: self.header_received,
            bytes_sent: self.bytes_sent,
            bytes_received: self.bytes_received,
        }
    }
}

impl Stream {
    /// A new stream: no header sent or received, no bytes counted.
    pub fn new(stream_id: u64, session_id: u64, bidirectional: bool) -> (r: Stream)
        ensures
            r@ == (StreamView {
                stream_id,
                session_id,
                bidirectional,
                header_sent: false,
                header_received: false,
                bytes_sent: 0,
                bytes_received: 0,
            }),
    {
        Stream {
            stream_id,
            session_id,
            bidirectional,
            header_sent: false,
            header_received: false,
            bytes_sent: 0,
            bytes_received: 0,
        }
    }

    /// The QUIC stream ID.
    pub fn stream_id(&self) -> (r: u64)
        ensures
            r == self@.stream_id,
    {
        self.stream_id
    }

    /// The session ID.
    pub fn session_id(&self) -> (r: u64)
        ensures
            r == self@.session_id,
    {
        self.session_id
    }

    /// Whether the stream is bidirectional.
    pub fn is_bidirectional(&self) -> (r: bool)
        ensures
            r == self@.bidirectional,
    {
        self.bidirectional
    }

    /// Whether the header went out.
    pub fn is_header_sent(&self) -> (r: bool)
        ensures
            r == self@.header_sent,
    {
        self.header_sent
    }

    /// Whether the header came in.
    pub fn is_header_received(&self) -> (r: bool)
        ensures
            r == self@.header_received,
    {
        self.header_received
    }

    /// Records that the header went out.
    pub fn set_header_sent(&mut self)
        ensures
            final(self)@ == (StreamView { header_sent: true, ..old(self)@ }),
    {
        self.header_sent = true;
    }

    /// Records that the header came in.
    pub fn set_header_received(&mut self)
        ensures
            final(self)@ == (StreamView { header_received: true, ..old(self)@ }),
    {
        self.header_received = true;
    }

    /// Bytes sent.
    pub fn bytes_sent(&self) -> (r: u64)
        ensures
            r == self@.bytes_sent,
    {
        self.bytes_sent
    }

    /// Bytes received.
    pub fn bytes_received(&self) -> (r: u64)
        ensures
            r == self@.bytes_received,
    {
        self.bytes_received
    }

    /// Counts `bytes` more sent.
    pub fn add_bytes_sent(&mut self, bytes: u64)
        requires
            old(self)@.bytes_sent + bytes <= u64::MAX,
        ensures
            final(self)@ == (StreamView { bytes_sent: (old(self)@.bytes_sent + bytes) as u64, ..old(self)@ }),
    {
        self.bytes_sent = self.bytes_sent + bytes;
    }

    /// Counts `bytes` more received.
    pub fn add_bytes_received(&mut self, bytes: u64)
        requires
            old(self)@.bytes_received + bytes <= u64::MAX,
        ensures
            final(self)@ == (StreamView {
                bytes_received: (old(self)@.bytes_received + bytes) as u64,
                ..old(self)@
            }),
    {
        self.bytes_received = self.bytes_received + bytes;
    }
}

/// What an incoming unidirectional stream is.
#[derive(Debug, Clone, Copy, PartialEq, Eq, Structural)]
pub enum ClassifiedUniStream {
    /// A WebTransport stream.
    WebTransport {
        /// The session ID.
        session_id: u64,
        /// Where the data after the header starts.
        data_offset: usize,
    },
    /// An HTTP/3 stream.
    Http3 {
        /// The stream type.
        stream_type: u64,
        /// Where the data after the stream type starts.
        data_offset: usize,
    },
}

/// The classification of a stream that starts with `buf`, or `None` where
/// the buffer is too short; the session ID is not checked.
pub open spec fn classify_spec(buf: Seq<u8>) -> Option<ClassifiedUniStream> {
    match varint_decoding(buf) {
        None => None,
        Some((t, n)) => if t == UNIDIRECTIONAL_STREAM_TYPE {
            match varint_decoding(buf.skip(n as int)) {
                None => None,
                Some((s, m)) => Some(
                    ClassifiedUniStream::WebTransport { session_id: s, data_offset: (n + m) as usize },
                ),
            }
        } else {
            Some(ClassifiedUniStream::Http3 { stream_type: t, data_offset: n as usize })
        },
    }
}

/// The classification with the session ID checked.
pub open spec fn classify_checked_spec(buf: Seq<u8>) -> Result<ClassifiedUniStream, StreamHeaderDecodeError> {
    match classify_spec(buf) {
        None => Err(StreamHeaderDecodeError::BufferTooShort),
        Some(c) => match c {
            ClassifiedUniStream::WebTransport { session_id, .. } => if session_id % 4 != 0 {
                Err(StreamHeaderDecodeError::InvalidSessionId)
            } else {
                Ok(c)
            },
            ClassifiedUniStream::Http3 { .. } => Ok(c),
        },
    }
}

/// Classifies an incoming unidirectional stream by its first bytes; the
/// session ID of a WebTransport stream is not checked.
pub fn classify_uni_stream(buf: &[u8]) -> (r: Result<ClassifiedUniStream, DecodeError>)
    ensures
        match classify_spec(buf@) {
            Some(c) => r == Ok::<ClassifiedUniStream, DecodeError>(c),
            None => r == Err::<ClassifiedUniStream, DecodeError>(DecodeError::BufferTooShort),
        },
{
    let (stream_type, type_len) = match decode_varint(buf) {
        Some(x) => x,
        None => return Err(DecodeError::BufferTooShort),
    };
    if stream_type == UNIDIRECTIONAL_STREAM_TYPE {
        let rest = &buf[type_len..buf.len()];
        assert(rest@ =~= buf@.skip(type_len as int));
        let (session_id, id_len) = match decode_varint(rest) {
            Some(x) => x,
            None => return Err(DecodeError::BufferTooShort),
        };
        Ok(ClassifiedUniStream::WebTransport { session_id, data_offset: type_len + id_len })
    } else {
        Ok(ClassifiedUniStream::Http3 { stream_type, data_offset: type_len })
    }
}

/// Classifies an incoming unidirectional stream and checks that the
/// session ID of a WebTransport stream is a client-initiated bidirectional
/// stream ID (Section 4).
pub fn classify_uni_stream_checked(buf: &[u8]) -> (r: Result<ClassifiedUniStream, StreamHeaderDecodeError>)
    ensures
        r == classify_checked_spec(buf@),
{
    match classify_uni_stream(buf) {
        Err(_) => Err(StreamHeaderDecodeError::BufferTooShort),
        Ok(c) => match c {
            ClassifiedUniStream::WebTransport { session_id, .. } => {
                if session_id % 4 != 0 {
                    Err(StreamHeaderDecodeError::InvalidSessionId)
                } else {
                    Ok(c)
                }
            },
            ClassifiedUniStream::Http3 { .. } => Ok(c),
        },
    }
}

} // verus!
