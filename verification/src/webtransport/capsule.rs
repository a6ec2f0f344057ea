//! WebTransport capsules (draft-ietf-webtrans-http3 Sections 5.6 and 6,
//! framed as in RFC 9297 Section 3.2).
//!
//! A capsule is a variable-length integer type, a variable-length integer
//! length, and a payload of exactly that length that holds exactly the
//! fields of the type.

use vstd::prelude::*;
use crate::text::{push_str, string_from_chars};
use vstd::utf8::{valid_utf8, decode_utf8, encode_utf8};
use vstd::string::StringSliceAdditionalSpecFns;
use crate::varint::{
    VarInt, VARINT_MAX_VALUE, varint_encoding, varint_decoding, push_varint, decode, varint_len,
    lemma_varint_roundtrip,
};
use crate::bytes_be::{append_bytes, be_value};
use crate::text::str_from_utf8;

verus! {

/// The largest WT_MAX_STREAMS value: 2^60 (Section 5.6.2).
pub const MAX_STREAMS_LIMIT: u64 = 0x1000_0000_0000_0000;

/// H3_DATAGRAM_ERROR (RFC 9297 Section 5.2).
pub const H3_DATAGRAM_ERROR: u64 = 0x33;

/// WT_MAX_STREAM_DATA, which HTTP/3 forbids (it belongs to WebTransport over HTTP/2).
pub const PROHIBITED_WT_MAX_STREAM_DATA_CAPSULE_TYPE: u64 = 0x190B4D3E;

/// WT_STREAM_DATA_BLOCKED, which HTTP/3 forbids.
pub const PROHIBITED_WT_STREAM_DATA_BLOCKED_CAPSULE_TYPE: u64 = 0x190B4D42;

/// The most bytes a WT_CLOSE_SESSION message may have (Section 6).
pub const MAX_CLOSE_MESSAGE_LEN: usize = 1024;

/// A received capsule whose payload is not exactly its fields.
#[derive(Debug, Clone, Copy, PartialEq, Eq, Structural)]
pub enum CapsuleDecodeError {
    /// The payload does not match the fields of its type.
    Malformed,
}

/// A capsule that has no wire form.
#[derive(Debug, Clone, Copy, PartialEq, Eq, Structural)]
pub enum CapsuleEncodeError {
    /// A type or length beyond the variable-length integer range.
    ValueOutOfVarIntRange,
}

/// A flow-control capsule whose value breaks the rules.
#[derive(Debug, Clone, Copy, PartialEq, Eq, Structural)]
pub enum CapsuleValidationError {
    /// WT_MAX_STREAMS above 2^60 (WT_FLOW_CONTROL_ERROR).
    MaxStreamsExceedsLimit,
    /// WT_MAX_STREAMS not above the previous value (WT_FLOW_CONTROL_ERROR).
    MaxStreamsDecreased,
    /// WT_MAX_DATA above 2^62 - 1 (H3_DATAGRAM_ERROR).
    MaxDataExceedsLimit,
    /// WT_MAX_DATA not above the previous value (WT_FLOW_CONTROL_ERROR).
    MaxDataDecreased,
}

/// The capsule types WebTransport over HTTP/3 defines.
#[derive(Debug, Clone, Copy, PartialEq, Eq, Structural)]
pub enum CapsuleType {
    /// WT_CLOSE_SESSION (0x2843).
    CloseSession,
    /// WT_DRAIN_SESSION (0x78ae).
    DrainSession,
    /// WT_MAX_DATA (0x190B4D3D).
    MaxData,
    /// WT_MAX_STREAMS, bidirectional (0x190B4D3F).
    MaxStreamsBidi,
    /// WT_MAX_STREAMS, unidirectional (0x190B4D40).
    MaxStreamsUni,
    /// WT_DATA_BLOCKED (0x190B4D41).
    DataBlocked,
    /// WT_STREAMS_BLOCKED, bidirectional (0x190B4D43).
    StreamsBlockedBidi,
    /// WT_STREAMS_BLOCKED, unidirectional (0x190B4D44).
    StreamsBlockedUni,
}

/// The wire value of a capsule type.
pub open spec fn capsule_type_value(t: CapsuleType) -> u64 {
    match t {
        CapsuleType::CloseSession => 0x2843,
        CapsuleType::DrainSession => 0x78ae,
        CapsuleType::MaxData => 0x190B4D3D,
        CapsuleType::MaxStreamsBidi => 0x190B4D3F,
        CapsuleType::MaxStreamsUni => 0x190B4D40,
        CapsuleType::DataBlocked => 0x190B4D41,
        CapsuleType::StreamsBlockedBidi => 0x190B4D43,
        CapsuleType::StreamsBlockedUni => 0x190B4D44,
    }
}

/// The type a wire value names.
pub open spec fn capsule_type_of(t: u64) -> Option<CapsuleType> {
    if t == 0x2843 {
        Some(CapsuleType::CloseSession)
    } else if t == 0x78ae {
        Some(CapsuleType::DrainSession)
    } else if t == 0x190B4D3D {
        Some(CapsuleType::MaxData)
    } else if t == 0x190B4D3F {
        Some(CapsuleType::MaxStreamsBidi)
    } else if t == 0x190B4D40 {
        Some(CapsuleType::MaxStreamsUni)
    } else if t == 0x190B4D41 {
        Some(CapsuleType::DataBlocked)
    } else if t == 0x190B4D43 {
        Some(CapsuleType::StreamsBlockedBidi)
    } else if t == 0x190B4D44 {
        Some(CapsuleType::StreamsBlockedUni)
    } else {
        None
    }
}

impl CapsuleType {
    /// The type a wire value names, if any.
    pub fn from_type(t: u64) -> (r: Option<CapsuleType>)
        ensures
            r == capsule_type_of(t),
    {
        if t == 0x2843 {
            Some(CapsuleType::CloseSession)
        } else if t == 0x78ae {
            Some(CapsuleType::DrainSession)
        } else if t == 0x190B4D3D {
            Some(CapsuleType::MaxData)
        } else if t == 0x190B4D3F {
            Some(CapsuleType::MaxStreamsBidi)
        } else if t == 0x190B4D40 {
            Some(CapsuleType::MaxStreamsUni)
        } else if t == 0x190B4D41 {
            Some(CapsuleType::DataBlocked)
        } else if t == 0x190B4D43 {
            Some(CapsuleType::StreamsBlockedBidi)
        } else if t == 0x190B4D44 {
            Some(CapsuleType::StreamsBlockedUni)
        } else {
            None
        }
    }

    /// The wire value of this type.
    pub fn value(self) -> (r: u64)
        ensures
            r == capsule_type_value(self),
            capsule_type_of(r) == Some(self),
    {
        match self {
            CapsuleType::CloseSession => 0x2843,
            CapsuleType::DrainSession => 0x78ae,
            CapsuleType::MaxData => 0x190B4D3D,
            CapsuleType::MaxStreamsBidi => 0x190B4D3F,
            CapsuleType::MaxStreamsUni => 0x190B4D40,
            CapsuleType::DataBlocked => 0x190B4D41,
            CapsuleType::StreamsBlockedBidi => 0x190B4D43,
            CapsuleType::StreamsBlockedUni => 0x190B4D44,
        }
    }
}

/// A WebTransport capsule.
#[derive(Debug, Clone, PartialEq, Eq)]
pub enum Capsule {
    /// WT_CLOSE_SESSION: the session ends.
    CloseSession {
        /// The application error code.
        error_code: u32,
        /// The reason (UTF-8, at most 1024 bytes on receipt).
        message: String,
    },
    /// WT_DRAIN_SESSION: the session is winding down.
    DrainSession,
    /// WT_MAX_DATA: the session's data limit.
    MaxData {
        /// The limit in bytes.
        maximum: u64,
    },
    /// WT_MAX_STREAMS: a stream limit.
    MaxStreams {
        /// Bidirectional streams, else unidirectional.
        bidirectional: bool,
        /// The limit.
        maximum: u64,
    },
    /// WT_DATA_BLOCKED: sending is blocked by the data limit.
    DataBlocked {
        /// The limit that blocks.
        maximum: u64,
    },
    /// WT_STREAMS_BLOCKED: opening streams is blocked by the stream limit.
    StreamsBlocked {
        /// Bidirectional streams, else unidirectional.
        bidirectional: bool,
        /// The limit that blocks.
        maximum: u64,
    },
    /// A capsule of another type, kept as it came.
    Unknown {
        /// The type.
        capsule_type: u64,
        /// The payload.
        payload: Vec<u8>,
    },
}

/// The abstract content of a capsule.
pub enum CapsuleView {
    /// WT_CLOSE_SESSION.
    CloseSession { error_code: u32, message: Seq<char> },
    /// WT_DRAIN_SESSION.
    DrainSession,
    /// WT_MAX_DATA.
    MaxData { maximum: u64 },
    /// WT_MAX_STREAMS.
    MaxStreams { bidirectional: bool, maximum: u64 },
    /// WT_DATA_BLOCKED.
    DataBlocked { maximum: u64 },
    /// WT_STREAMS_BLOCKED.
    StreamsBlocked { bidirectional: bool, maximum: u64 },
    /// Another type.
    Unknown { capsule_type: u64, payload: Seq<u8> },
}

impl View for Capsule {
    type V = CapsuleView;

    open spec fn view(&self) -> CapsuleView {
        match self {
            Capsule::CloseSession { error_code, message } => CapsuleView::CloseSession {
                error_code: *error_code,
                message: message@,
            },
            Capsule::DrainSession => CapsuleView::DrainSession,
            Capsule::MaxData { maximum } => CapsuleView::MaxData { maximum: *maximum },
            Capsule::MaxStreams { bidirectional, maximum } => CapsuleView::MaxStreams {
                bidirectional: *bidirectional,
                maximum: *maximum,
            },
            Capsule::DataBlocked { maximum } => CapsuleView::DataBlocked { maximum: *maximum },
            Capsule::StreamsBlocked { bidirectional, maximum } => CapsuleView::StreamsBlocked {
                bidirectional: *bidirectional,
                maximum: *maximum,
            },
            Capsule::Unknown { capsule_type, payload } => CapsuleView::Unknown {
                capsule_type: *capsule_type,
                payload: payload@,
            },
        }
    }
}

/// The four bytes of `x`, most significant first.
pub open spec fn be32(x: u32) -> Seq<u8> {
    seq![(x / 0x100_0000) as u8, (x / 0x1_0000 % 0x100) as u8, (x / 0x100 % 0x100) as u8, (x % 0x100) as u8]
}

/// The type of a capsule.
pub open spec fn view_type(c: CapsuleView) -> u64 {
    match c {
        CapsuleView::CloseSession { .. } => 0x2843,
        CapsuleView::DrainSession => 0x78ae,
        CapsuleView::MaxData { .. } => 0x190B4D3D,
        CapsuleView::MaxStreams { bidirectional, .. } => if bidirectional {
            0x190B4D3F
        } else {
            0x190B4D40
        },
        CapsuleView::DataBlocked { .. } => 0x190B4D41,
        CapsuleView::StreamsBlocked { bidirectional, .. } => if bidirectional {
            0x190B4D43
        } else {
            0x190B4D44
        },
        CapsuleView::Unknown { capsule_type, .. } => capsule_type,
    }
}

/// The payload of a capsule, when its values fit their encodings.
pub open spec fn view_payload(c: CapsuleView) -> Option<Seq<u8>> {
    match c {
        CapsuleView::CloseSession { error_code, message } => Some(
            be32(error_code) + encode_utf8(message),
        ),
        CapsuleView::DrainSession => Some(seq![]),
        CapsuleView::MaxData { maximum } => varint_payload(maximum),
        CapsuleView::MaxStreams { maximum, .. } => varint_payload(maximum),
        CapsuleView::DataBlocked { maximum } => varint_payload(maximum),
        CapsuleView::StreamsBlocked { maximum, .. } => varint_payload(maximum),
        CapsuleView::Unknown { payload, .. } => Some(payload),
    }
}

/// The encoding of a value as the whole payload, when it is in range.
pub open spec fn varint_payload(v: u64) -> Option<Seq<u8>> {
    if v <= VARINT_MAX_VALUE {
        Some(varint_encoding(v))
    } else {
        None
    }
}

/// The wire form of a capsule: type, length, payload; `None` when a value
/// is beyond the variable-length integer range.
pub open spec fn capsule_wire(c: CapsuleView) -> Option<Seq<u8>> {
    match view_payload(c) {
        Some(p) => if view_type(c) <= VARINT_MAX_VALUE && p.len() <= VARINT_MAX_VALUE {
            Some(varint_encoding(view_type(c)) + varint_encoding(p.len() as u64) + p)
        } else {
            None
        },
        None => None,
    }
}

/// A payload that is exactly one variable-length integer.
pub open spec fn exact_varint(p: Seq<u8>) -> Option<u64> {
    match varint_decoding(p) {
        Some((v, n)) => if n == p.len() {
            Some(v)
        } else {
            None
        },
        None => None,
    }
}

/// The capsule a payload of type `t` holds.
pub open spec fn payload_decoding(t: u64, p: Seq<u8>) -> Result<CapsuleView, CapsuleDecodeError> {
    match capsule_type_of(t) {
        Some(CapsuleType::CloseSession) => if p.len() < 4 || p.len() - 4 > MAX_CLOSE_MESSAGE_LEN
            || !valid_utf8(p.skip(4)) {
            Err(CapsuleDecodeError::Malformed)
        } else {
            Ok(
                CapsuleView::CloseSession {
                    error_code: be_value(p.take(4)) as u32,
                    message: decode_utf8(p.skip(4)),
                },
            )
        },
        Some(CapsuleType::DrainSession) => if p.len() != 0 {
            Err(CapsuleDecodeError::Malformed)
        } else {
            Ok(CapsuleView::DrainSession)
        },
        Some(ct) => match exact_varint(p) {
            None => Err(CapsuleDecodeError::Malformed),
            Some(v) => Ok(
                match ct {
                    CapsuleType::MaxData => CapsuleView::MaxData { maximum: v },
                    CapsuleType::MaxStreamsBidi => CapsuleView::MaxStreams {
                        bidirectional: true,
                        maximum: v,
                    },
                    CapsuleType::MaxStreamsUni => CapsuleView::MaxStreams {
                        bidirectional: false,
                        maximum: v,
                    },
                    CapsuleType::DataBlocked => CapsuleView::DataBlocked { maximum: v },
                    CapsuleType::StreamsBlockedBidi => CapsuleView::StreamsBlocked {
                        bidirectional: true,
                        maximum: v,
                    },
                    _ => CapsuleView::StreamsBlocked { bidirectional: false, maximum: v },
                },
            ),
        },
        None => Ok(CapsuleView::Unknown { capsule_type: t, payload: p }),
    }
}

/// What reading a capsule off the front of `buf` gives: `Ok(None)` while
/// the capsule is incomplete, else the capsule and its length, or the
/// error for a malformed payload.
pub open spec fn capsule_decoding(buf: Seq<u8>) -> Result<Option<(CapsuleView, nat)>, CapsuleDecodeError> {
    match varint_decoding(buf) {
        None => Ok(None),
        Some((t, n1)) => match varint_decoding(buf.skip(n1 as int)) {
            None => Ok(None),
            Some((len, n2)) => {
                let end: nat = n1 + n2 + len as nat;
                if end > buf.len() {
                    Ok(None)
                } else {
                    match payload_decoding(t, buf.subrange((n1 + n2) as int, end as int)) {
                        Err(e) => Err(e),
                        Ok(c) => Ok(Some((c, end))),
                    }
                }
            },
        },
    }
}

impl Capsule {
    /// Whether the type is one HTTP/3 forbids: WT_MAX_STREAM_DATA or
    /// WT_STREAM_DATA_BLOCKED (Section 5.4).
    pub fn is_prohibited_in_http3_type(capsule_type: u64) -> (r: bool)
        ensures
            r == (capsule_type == PROHIBITED_WT_MAX_STREAM_DATA_CAPSULE_TYPE || capsule_type
                == PROHIBITED_WT_STREAM_DATA_BLOCKED_CAPSULE_TYPE),
    {
        capsule_type == PROHIBITED_WT_MAX_STREAM_DATA_CAPSULE_TYPE || capsule_type
            == PROHIBITED_WT_STREAM_DATA_BLOCKED_CAPSULE_TYPE
    }

    /// Whether this capsule's type is one HTTP/3 forbids.
    pub fn is_prohibited_in_http3(&self) -> (r: bool)
        ensures
            r == (view_type(self@) == PROHIBITED_WT_MAX_STREAM_DATA_CAPSULE_TYPE || view_type(self@)
                == PROHIBITED_WT_STREAM_DATA_BLOCKED_CAPSULE_TYPE),
    {
        Self::is_prohibited_in_http3_type(self.capsule_type())
    }

    /// The type of this capsule.
    pub fn capsule_type(&self) -> (r: u64)
        ensures
            r == view_type(self@),
    {
        match self {
            Capsule::CloseSession { .. } => 0x2843,
            Capsule::DrainSession => 0x78ae,
            Capsule::MaxData { .. } => 0x190B4D3D,
            Capsule::MaxStreams { bidirectional, .. } => if *bidirectional {
                0x190B4D3F
            } else {
                0x190B4D40
            },
            Capsule::DataBlocked { .. } => 0x190B4D41,
            Capsule::StreamsBlocked { bidirectional, .. } => if *bidirectional {
                0x190B4D43
            } else {
                0x190B4D44
            },
            Capsule::Unknown { capsule_type, .. } => *capsule_type,
        }
    }

    /// Appends the wire form of this capsule to `buf`; fails, leaving `buf`
    /// as it was, when a type or length is beyond the variable-length
    /// integer range.
    pub fn encode(&self, buf: &mut Vec<u8>) -> (r: Result<(), CapsuleEncodeError>)
        ensures
            match capsule_wire(self@) {
                Some(w) => r is Ok && final(buf)@ == old(buf)@ + w,
                None => r == Err::<(), CapsuleEncodeError>(CapsuleEncodeError::ValueOutOfVarIntRange)
                    && final(buf)@ == old(buf)@,
            },
    {
        let t = self.capsule_type();
        let mut payload: Vec<u8> = Vec::new();
        match self {
            Capsule::CloseSession { error_code, message } => {
                let e = *error_code;
                payload.push((e / 0x100_0000) as u8);
                payload.push((e / 0x1_0000 % 0x100) as u8);
                payload.push((e / 0x100 % 0x100) as u8);
                payload.push((e % 0x100) as u8);
                append_bytes(&mut payload, message.as_str().as_bytes());
                assert(payload@ =~= be32(e) + encode_utf8(message@));
            },
            Capsule::DrainSession => {},
            Capsule::MaxData { maximum } | Capsule::MaxStreams { maximum, .. }
            | Capsule::DataBlocked { maximum } | Capsule::StreamsBlocked { maximum, .. } => {
                if *maximum > VARINT_MAX_VALUE {
                    return Err(CapsuleEncodeError::ValueOutOfVarIntRange);
                }
                push_varint(&mut payload, *maximum);
                assert(payload@ =~= varint_encoding(*maximum));
            },
            Capsule::Unknown { payload: p, .. } => {
                append_bytes(&mut payload, p.as_slice());
                assert(payload@ =~= p@);
            },
        }
        if t > VARINT_MAX_VALUE || payload.len() as u64 > VARINT_MAX_VALUE {
            return Err(CapsuleEncodeError::ValueOutOfVarIntRange);
        }
        let mut out: Vec<u8> = Vec::new();
        push_varint(&mut out, t);
        push_varint(&mut out, payload.len() as u64);
        append_bytes(&mut out, payload.as_slice());
        assert(out@ =~= varint_encoding(t) + varint_encoding(payload@.len() as u64) + payload@);
        append_bytes(buf, out.as_slice());
        Ok(())
    }

    /// Appends this capsule as one HTTP/3 DATA frame (type 0, length,
    /// capsule) to `buf`; fails, leaving `buf` as it was, when the capsule
    /// has no wire form.
    pub fn encode_as_data_frame(&self, buf: &mut Vec<u8>) -> (r: Result<(), CapsuleEncodeError>)
        ensures
            match capsule_wire(self@) {
                Some(w) => if w.len() <= VARINT_MAX_VALUE {
                    r is Ok && final(buf)@ == old(buf)@ + varint_encoding(0) + varint_encoding(
                        w.len() as u64,
                    ) + w
                } else {
                    r == Err::<(), CapsuleEncodeError>(CapsuleEncodeError::ValueOutOfVarIntRange)
                        && final(buf)@ == old(buf)@
                },
                None => r == Err::<(), CapsuleEncodeError>(CapsuleEncodeError::ValueOutOfVarIntRange)
                    && final(buf)@ == old(buf)@,
            },
    {
        let mut capsule_bytes: Vec<u8> = Vec::new();
        match self.encode(&mut capsule_bytes) {
            Ok(()) => {},
            Err(e) => {
                return Err(e);
            },
        }
        assert(capsule_bytes@ =~= Seq::<u8>::empty() + capsule_wire(self@)->0);
        if capsule_bytes.len() as u64 > VARINT_MAX_VALUE {
            return Err(CapsuleEncodeError::ValueOutOfVarIntRange);
        }
        let mut out: Vec<u8> = Vec::new();
        push_varint(&mut out, 0);
        push_varint(&mut out, capsule_bytes.len() as u64);
        append_bytes(&mut out, capsule_bytes.as_slice());
        append_bytes(buf, out.as_slice());
        assert(buf@ =~= old(buf)@ + varint_encoding(0) + varint_encoding(capsule_bytes@.len() as u64)
            + capsule_bytes@);
        Ok(())
    }

    /// Reads a capsule off the front of `buf`: `Ok(None)` while it is
    /// incomplete, the capsule and the bytes it takes, or `Malformed` when
    /// its payload is not exactly the fields of its type (RFC 9297 Section 3.2).
    pub fn decode(buf: &[u8]) -> (r: Result<Option<(Capsule, usize)>, CapsuleDecodeError>)
        ensures
            match capsule_decoding(buf@) {
                Ok(None) => r matches Ok(None),
                Ok(Some((c, n))) => r matches Ok(Some((x, m))) && x@ == c && m == n,
                Err(e) => r == Err::<Option<(Capsule, usize)>, CapsuleDecodeError>(e),
            },
    {
        let (t, n1) = match decode(buf) {
            Ok((v, n)) => (v.get(), n),
            Err(_) => {
                return Ok(None);
            },
        };
        let rest = &buf[n1..buf.len()];
        assert(rest@ =~= buf@.skip(n1 as int));
        let (len, n2) = match decode(rest) {
            Ok((v, n)) => (v.get(), n),
            Err(_) => {
                return Ok(None);
            },
        };
        let offset = n1 + n2;
        if len > (buf.len() - offset) as u64 {
            return Ok(None);
        }
        let end = offset + len as usize;
        let payload = &buf[offset..end];
        assert(payload@ =~= buf@.subrange(offset as int, end as int));
        match Self::decode_payload(t, payload) {
            Ok(c) => Ok(Some((c, end))),
            Err(e) => Err(e),
        }
    }

    /// The capsule a complete payload of type `capsule_type` holds.
    fn decode_payload(capsule_type: u64, payload: &[u8]) -> (r: Result<Capsule, CapsuleDecodeError>)
        ensures
            match payload_decoding(capsule_type, payload@) {
                Ok(c) => r matches Ok(x) && x@ == c,
                Err(e) => r == Err::<Capsule, CapsuleDecodeError>(e),
            },
    {
        match CapsuleType::from_type(capsule_type) {
            Some(CapsuleType::CloseSession) => {
                if payload.len() < 4 {
                    return Err(CapsuleDecodeError::Malformed);
                }
                let message_bytes = &payload[4..payload.len()];
                assert(message_bytes@ =~= payload@.skip(4));
                if message_bytes.len() > MAX_CLOSE_MESSAGE_LEN {
                    return Err(CapsuleDecodeError::Malformed);
                }
                let error_code = ((payload[0] as u32) * 0x100_0000) + ((payload[1] as u32)
                    * 0x1_0000) + ((payload[2] as u32) * 0x100) + (payload[3] as u32);
                proof {
                    let p = payload@;
                    assert(p.take(1).drop_last() =~= p.take(0));
                    assert(p.take(2).drop_last() =~= p.take(1));
                    assert(p.take(3).drop_last() =~= p.take(2));
                    assert(p.take(4).drop_last() =~= p.take(3));
                    assert(be_value(p.take(0)) == 0);
                    assert(be_value(p.take(1)) == p[0] as nat);
                    assert(be_value(p.take(2)) == p[0] as nat * 256 + p[1] as nat);
                    assert(be_value(p.take(3)) == (p[0] as nat * 256 + p[1] as nat) * 256
                        + p[2] as nat);
                    assert(be_value(p.take(4)) == ((p[0] as nat * 256 + p[1] as nat) * 256
                        + p[2] as nat) * 256 + p[3] as nat);
                }
                match str_from_utf8(message_bytes) {
                    Some(s) => {
                        proof {
                            vstd::utf8::decode_utf8_encode_utf8(message_bytes@);
                            vstd::utf8::encode_utf8_decode_utf8(s@);
                        }
                        Ok(Capsule::CloseSession { error_code, message: s.to_owned() })
                    },
                    None => Err(CapsuleDecodeError::Malformed),
                }
            },
            Some(CapsuleType::DrainSession) => {
                if payload.len() != 0 {
                    return Err(CapsuleDecodeError::Malformed);
                }
                Ok(Capsule::DrainSession)
            },
            Some(ct) => {
                let v = match decode(payload) {
                    Ok((x, n)) => {
                        if n != payload.len() {
                            return Err(CapsuleDecodeError::Malformed);
                        }
                        x.get()
                    },
                    Err(_) => {
                        return Err(CapsuleDecodeError::Malformed);
                    },
                };
                Ok(
                    match ct {
                        CapsuleType::MaxData => Capsule::MaxData { maximum: v },
                        CapsuleType::MaxStreamsBidi => Capsule::MaxStreams {
                            bidirectional: true,
                            maximum: v,
                        },
                        CapsuleType::MaxStreamsUni => Capsule::MaxStreams {
                            bidirectional: false,
                            maximum: v,
                        },
                        CapsuleType::DataBlocked => Capsule::DataBlocked { maximum: v },
                        CapsuleType::StreamsBlockedBidi => Capsule::StreamsBlocked {
                            bidirectional: true,
                            maximum: v,
                        },
                        _ => Capsule::StreamsBlocked { bidirectional: false, maximum: v },
                    },
                )
            },
            None => Ok(
                Capsule::Unknown {
                    capsule_type,
                    payload: vstd::slice::slice_to_vec(payload),
                },
            ),
        }
    }

    /// Checks a received WT_MAX_STREAMS value against the previous one:
    /// at most 2^60, and above the previous (Section 5.6.2).
    pub fn validate_max_streams(maximum: u64, current_max: u64) -> (r: Result<(), CapsuleValidationError>)
        ensures
            r == if maximum > MAX_STREAMS_LIMIT {
                Err::<(), CapsuleValidationError>(CapsuleValidationError::MaxStreamsExceedsLimit)
            } else if maximum <= current_max {
                Err(CapsuleValidationError::MaxStreamsDecreased)
            } else {
                Ok(())
            },
    {
        if maximum > MAX_STREAMS_LIMIT {
            return Err(CapsuleValidationError::MaxStreamsExceedsLimit);
        }
        if maximum <= current_max {
            return Err(CapsuleValidationError::MaxStreamsDecreased);
        }
        Ok(())
    }

    /// Checks a received WT_MAX_DATA value against the previous one: at
    /// most 2^62 - 1, and above the previous (Section 5.6.4).
    pub fn validate_max_data(maximum: u64, current_max: u64) -> (r: Result<(), CapsuleValidationError>)
        ensures
            r == if maximum > VARINT_MAX_VALUE {
                Err::<(), CapsuleValidationError>(CapsuleValidationError::MaxDataExceedsLimit)
            } else if maximum <= current_max {
                Err(CapsuleValidationError::MaxDataDecreased)
            } else {
                Ok(())
            },
    {
        if maximum > VarInt::MAX().get() {
            return Err(CapsuleValidationError::MaxDataExceedsLimit);
        }
        if maximum <= current_max {
            return Err(CapsuleValidationError::MaxDataDecreased);
        }
        Ok(())
    }

    /// Whether this is a flow-control capsule.
    pub fn is_flow_control(&self) -> (r: bool)
        ensures
            r == (self@ is MaxData || self@ is MaxStreams || self@ is DataBlocked || self@ is StreamsBlocked),
    {
        match self {
            Capsule::MaxData { .. } | Capsule::MaxStreams { .. } | Capsule::DataBlocked { .. }
            | Capsule::StreamsBlocked { .. } => true,
            _ => false,
        }
    }
}

/// A capsule that reads back as itself: a close message of at most 1024
/// bytes, and an unknown capsule of a type no known capsule has.
pub open spec fn capsule_canonical(c: CapsuleView) -> bool {
    match c {
        CapsuleView::CloseSession { message, .. } => encode_utf8(message).len()
            <= MAX_CLOSE_MESSAGE_LEN,
        CapsuleView::Unknown { capsule_type, .. } => capsule_type_of(capsule_type) is None,
        _ => true,
    }
}

proof fn lemma_be32(x: u32)
    ensures
        be_value(be32(x)) == x,
        be32(x).len() == 4,
{
    let s = be32(x);
    assert(s.take(1).drop_last() =~= s.take(0));
    assert(s.take(2).drop_last() =~= s.take(1));
    assert(s.take(3).drop_last() =~= s.take(2));
    assert(s.drop_last() =~= s.take(3));
    assert(s.take(0).len() == 0);
    assert(be_value(s.take(0)) == 0);
    assert(s.take(1).last() == s[0]);
    assert(s.take(2).last() == s[1]);
    assert(s.take(3).last() == s[2]);
    assert(be_value(s.take(1)) == s[0] as nat);
    assert(be_value(s.take(2)) == s[0] as nat * 256 + s[1] as nat);
    assert(be_value(s.take(3)) == (s[0] as nat * 256 + s[1] as nat) * 256 + s[2] as nat);
    assert((((x / 0x100_0000) * 256 + x / 0x1_0000 % 0x100) * 256 + x / 0x100 % 0x100) * 256
        + x % 0x100 == x) by (nonlinear_arith);
}

/// Reading back the wire form of a capsule gives the capsule and its
/// length, whatever follows it.
pub proof fn lemma_capsule_roundtrip(c: CapsuleView, rest: Seq<u8>)
    requires
        capsule_wire(c) is Some,
        capsule_canonical(c),
    ensures
        capsule_decoding(capsule_wire(c)->0 + rest) == Ok::<
            Option<(CapsuleView, nat)>,
            CapsuleDecodeError,
        >(Some((c, capsule_wire(c)->0.len()))),
{
    let p = view_payload(c)->0;
    let t = view_type(c);
    let et = varint_encoding(t);
    let el = varint_encoding(p.len() as u64);
    let w = et + el + p;
    let buf = w + rest;
    lemma_varint_roundtrip(t, el + p + rest);
    assert(buf =~= et + (el + p + rest));
    lemma_varint_roundtrip(p.len() as u64, p + rest);
    assert(buf.skip(et.len() as int) =~= el + (p + rest));
    assert(buf.subrange((et.len() + el.len()) as int, (et.len() + el.len() + p.len()) as int) =~= p);
    match c {
        CapsuleView::CloseSession { error_code, message } => {
            lemma_be32(error_code);
            assert(p.take(4) =~= be32(error_code));
            assert(p.skip(4) =~= encode_utf8(message));
            vstd::utf8::encode_utf8_valid_utf8(message);
            vstd::utf8::encode_utf8_decode_utf8(message);
        },
        CapsuleView::MaxData { maximum } => {
            lemma_varint_roundtrip(maximum, seq![]);
            assert(p + Seq::<u8>::empty() =~= p);
        },
        CapsuleView::MaxStreams { maximum, .. } => {
            lemma_varint_roundtrip(maximum, seq![]);
            assert(p + Seq::<u8>::empty() =~= p);
        },
        CapsuleView::DataBlocked { maximum } => {
            lemma_varint_roundtrip(maximum, seq![]);
            assert(p + Seq::<u8>::empty() =~= p);
        },
        CapsuleView::StreamsBlocked { maximum, .. } => {
            lemma_varint_roundtrip(maximum, seq![]);
            assert(p + Seq::<u8>::empty() =~= p);
        },
        _ => {},
    }
}

impl CapsuleEncodeError {
    /// The message of this error.
    pub fn to_string(&self) -> (r: String)
        ensures
            r@ == "capsule field cannot be encoded as a QUIC varint (RFC 9000 Section 16)"@,
    {
        let mut v: Vec<char> = Vec::new();
        push_str(&mut v, "capsule field cannot be encoded as a QUIC varint (RFC 9000 Section 16)");
        assert(v@ =~= "capsule field cannot be encoded as a QUIC varint (RFC 9000 Section 16)"@);
        string_from_chars(v.as_slice())
    }
}

} // verus!
