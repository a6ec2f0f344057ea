//! WebTransport datagrams (RFC 9297, draft-ietf-webtrans-http3-15
//! Section 4.5): an HTTP Datagram whose Quarter Stream ID is the session ID
//! divided by four, followed by the payload.

use vstd::prelude::*;
use crate::varint::{VARINT_MAX_VALUE, varint_encoding, varint_decoding, varint_len, push_varint, decode, lemma_varint_roundtrip, lemma_varint_short_forms, lemma_varint_decode_short_forms};
use crate::bytes_be::append_bytes;

verus! {

/// Why a datagram cannot be built.
#[derive(Debug, Clone, Copy, PartialEq, Eq, Structural)]
pub enum DatagramError {
    /// The session ID is not a client-initiated bidirectional stream ID.
    InvalidSessionId,
}

/// A WebTransport datagram.
#[derive(Debug, Clone, PartialEq, Eq)]
pub struct Datagram {
    /// The session ID (the stream ID of the CONNECT stream).
    pub session_id: u64,
    /// The payload.
    pub payload: Vec<u8>,
}

/// The largest Quarter Stream ID: a quarter of the QUIC stream ID space.
pub open spec fn max_quarter_stream_id() -> u64 {
    0x0fff_ffff_ffff_ffff
}

/// The wire form of a datagram.
pub open spec fn datagram_encoding(session_id: u64, payload: Seq<u8>) -> Seq<u8> {
    varint_encoding(session_id / 4) + payload
}

/// The session ID and payload a QUIC DATAGRAM payload carries.
pub open spec fn datagram_decoding(buf: Seq<u8>) -> Option<(u64, Seq<u8>)> {
    match varint_decoding(buf) {
        None => None,
        Some((q, n)) => if q > max_quarter_stream_id() {
            None
        } else {
            Some(((q * 4) as u64, buf.skip(n as int)))
        },
    }
}

impl Datagram {
    /// A datagram for `session_id`, which must be a client-initiated
    /// bidirectional stream ID.
    pub fn new(session_id: u64, payload: Vec<u8>) -> (r: Result<Datagram, DatagramError>)
        ensures
            session_id % 4 == 0 ==> (r matches Ok(d) && d.session_id == session_id && d.payload@
                == payload@),
            session_id % 4 != 0 ==> r == Err::<Datagram, DatagramError>(
                DatagramError::InvalidSessionId,
            ),
    {
        if session_id % 4 != 0 {
            return Err(DatagramError::InvalidSessionId);
        }
        Ok(Datagram { session_id, payload })
    }

    /// The Quarter Stream ID: the session ID divided by four.
    pub fn quarter_stream_id(&self) -> (r: u64)
        ensures
            r == self.session_id / 4,
    {
        self.session_id / 4
    }

    /// Appends the datagram: the Quarter Stream ID, then the payload.
    pub fn encode(&self, buf: &mut Vec<u8>)
        ensures
            final(buf)@ == old(buf)@ + datagram_encoding(self.session_id, self.payload@),
    {
        push_varint(buf, self.quarter_stream_id());
        append_bytes(buf, self.payload.as_slice());
        proof {
            assert(final(buf)@ =~= old(buf)@ + datagram_encoding(self.session_id, self.payload@));
        }
    }

    /// Reads a datagram from a whole QUIC DATAGRAM payload; the whole
    /// buffer is consumed. `None` where the buffer holds no Quarter Stream
    /// ID or one beyond the stream ID space (the caller then closes the
    /// connection with H3_DATAGRAM_ERROR).
    pub fn decode(buf: &[u8]) -> (r: Option<(Datagram, usize)>)
        ensures
            match datagram_decoding(buf@) {
                None => r is None,
                Some((s, p)) => r matches Some((d, n)) && d.session_id == s && d.payload@ == p
                    && n == buf@.len(),
            },
    {
        let (qsi, len) = match decode(buf) {
            Ok((v, n)) => (v.get(), n),
            Err(_) => return None,
        };
        if qsi > 0x0fff_ffff_ffff_ffff {
            return None;
        }
        let session_id = qsi * 4;
        let rest = &buf[len..buf.len()];
        let mut payload: Vec<u8> = Vec::new();
        append_bytes(&mut payload, rest);
        assert(payload@ =~= buf@.skip(len as int));
        Some((Datagram { session_id, payload }, buf.len()))
    }
}

/// A datagram read back from its encoding gives the same session ID and
/// payload, for every session ID that is a client-initiated bidirectional
/// stream ID within the QUIC stream ID space.
pub proof fn lemma_datagram_roundtrip(session_id: u64, payload: Seq<u8>)
    requires
        session_id % 4 == 0,
        session_id <= VARINT_MAX_VALUE,
    ensures
        datagram_decoding(datagram_encoding(session_id, payload)) == Some((session_id, payload)),
{
    let q = session_id / 4;
    lemma_varint_roundtrip(q, payload);
    assert(datagram_encoding(session_id, payload).skip(varint_len(q) as int) =~= payload);
}

/// A datagram starts with the Quarter Stream ID, the session ID divided by
/// four (RFC 9297 Section 2.1): for a session ID below 256 it is the
/// single byte `session_id / 4` before the payload, and a datagram whose
/// first byte `b` is below `0x40` belongs to session `4 * b` and carries
/// the bytes after it.
pub proof fn lemma_datagram_quarter_id(session_id: u64, payload: Seq<u8>, b: u8, rest: Seq<u8>)
    ensures
        session_id < 256 ==> datagram_encoding(session_id, payload) == seq![(session_id / 4) as u8] + payload,
        b < 0x40 ==> datagram_decoding(seq![b] + rest) == Some(((4 * b) as u64, rest)),
{
    lemma_varint_short_forms(session_id / 4);
    lemma_varint_decode_short_forms(b, 0, rest);
    assert((seq![b] + rest).skip(1) =~= rest);
}

} // verus!
