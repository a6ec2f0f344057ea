//! The QPACK decoder stream (RFC 9204 Section 4.4): the instructions a
//! decoder sends its peer's encoder, written and read.

use vstd::prelude::*;
use crate::error::QpackError;
use crate::qpack::integer::{prefix_int_encoding, prefix_int_decoding, encode_integer_to_vec, decode_integer,
    prefix_max, pow128, lemma_prefix_int_roundtrip};
use crate::qpack::wire::lemma_prefix_int_bounds;
use crate::buf::{bytes_mut_contents, bytes_mut_new, bytes_mut_extend, bytes_mut_put_u8, bytes_mut_advance,
    bytes_mut_clear, bytes_mut_len, bytes_mut_as_slice};

verus! {

/// A decoder instruction.
#[derive(Debug, Clone, Copy, PartialEq, Eq, Structural)]
pub enum DecoderInstruction {
    /// Section Acknowledgment (`1xxxxxxx`): the field section on the stream
    /// was decoded.
    SectionAcknowledgment {
        /// The stream.
        stream_id: u64,
    },
    /// Stream Cancellation (`01xxxxxx`): the stream was reset or abandoned.
    StreamCancellation {
        /// The stream.
        stream_id: u64,
    },
    /// Insert Count Increment (`00xxxxxx`): more entries were received.
    InsertCountIncrement {
        /// The increment.
        increment: u64,
    },
}

/// The wire form of a decoder instruction.
pub open spec fn decoder_instruction_encoding(i: DecoderInstruction) -> Seq<u8> {
    match i {
        DecoderInstruction::SectionAcknowledgment { stream_id } => prefix_int_encoding(stream_id as nat, 7, 0x80),
        DecoderInstruction::StreamCancellation { stream_id } => prefix_int_encoding(stream_id as nat, 6, 0x40),
        DecoderInstruction::InsertCountIncrement { increment } => prefix_int_encoding(increment as nat, 6, 0x00),
    }
}

/// The sending side of the decoder stream.
#[derive(Debug)]
pub struct DecoderStream {
    send_buffer: bytes::BytesMut,
}

impl View for DecoderStream {
    type V = Seq<u8>;

    closed spec fn view(&self) -> Seq<u8> {
        bytes_mut_contents(self.send_buffer)
    }
}

impl Default for DecoderStream {
    fn default() -> (r: DecoderStream)
        ensures
            r@ == Seq::<u8>::empty(),
    {
        DecoderStream::new()
    }
}

impl DecoderStream {
    /// A stream with nothing to send.
    pub fn new() -> (r: DecoderStream)
        ensures
            r@ == Seq::<u8>::empty(),
    {
        DecoderStream { send_buffer: bytes_mut_new() }
    }

    /// Queues the stream type, 0x03.
    pub fn write_stream_type(&mut self)
        requires
            old(self)@.len() + 1 <= usize::MAX,
        ensures
            final(self)@ == old(self)@.push(0x03),
    {
        bytes_mut_put_u8(&mut self.send_buffer, 0x03);
    }

    /// Appends an instruction.
    fn push_instruction(&mut self, value: u64, prefix_bits: u8, prefix: u8)
        requires
            1 <= prefix_bits <= 8,
            old(self)@.len() + prefix_int_encoding(value as nat, prefix_bits as nat, prefix).len() <= usize::MAX,
        ensures
            final(self)@ == old(self)@ + prefix_int_encoding(value as nat, prefix_bits as nat, prefix),
    {
        let mut v: Vec<u8> = Vec::new();
        encode_integer_to_vec(&mut v, value, prefix_bits, prefix);
        assert(v@ =~= prefix_int_encoding(value as nat, prefix_bits as nat, prefix));
        bytes_mut_extend(&mut self.send_buffer, v.as_slice());
    }

    /// Queues a Section Acknowledgment for `stream_id`.
    pub fn encode_section_acknowledgment(&mut self, stream_id: u64)
        requires
            old(self)@.len() + decoder_instruction_encoding(
                DecoderInstruction::SectionAcknowledgment { stream_id },
            ).len() <= usize::MAX,
        ensures
            final(self)@ == old(self)@ + decoder_instruction_encoding(
                DecoderInstruction::SectionAcknowledgment { stream_id },
            ),
    {
        self.push_instruction(stream_id, 7, 0x80);
    }

    /// Queues a Stream Cancellation for `stream_id`.
    pub fn encode_stream_cancellation(&mut self, stream_id: u64)
        requires
            old(self)@.len() + decoder_instruction_encoding(
                DecoderInstruction::StreamCancellation { stream_id },
            ).len() <= usize::MAX,
        ensures
            final(self)@ == old(self)@ + decoder_instruction_encoding(
                DecoderInstruction::StreamCancellation { stream_id },
            ),
    {
        self.push_instruction(stream_id, 6, 0x40);
    }

    /// Queues an Insert Count Increment of `increment`.
    pub fn encode_insert_count_increment(&mut self, increment: u64)
        requires
            old(self)@.len() + decoder_instruction_encoding(
                DecoderInstruction::InsertCountIncrement { increment },
            ).len() <= usize::MAX,
        ensures
            final(self)@ == old(self)@ + decoder_instruction_encoding(
                DecoderInstruction::InsertCountIncrement { increment },
            ),
    {
        self.push_instruction(increment, 6, 0x00);
    }

    /// The bytes waiting to be sent.
    pub fn get_data(&self) -> (r: &[u8])
        ensures
            r@ == self@,
    {
        bytes_mut_as_slice(&self.send_buffer)
    }

    /// Drops the first `len` bytes, which were sent (all of them where
    /// `len` reaches the end).
    pub fn consume_data(&mut self, len: usize)
        ensures
            final(self)@ == (if len >= old(self)@.len() {
                Seq::<u8>::empty()
            } else {
                old(self)@.skip(len as int)
            }),
    {
        if len >= bytes_mut_len(&self.send_buffer) {
            bytes_mut_clear(&mut self.send_buffer);
        } else {
            bytes_mut_advance(&mut self.send_buffer, len);
        }
    }

    /// Whether bytes wait to be sent.
    pub fn has_pending(&self) -> (r: bool)
        ensures
            r == (self@.len() > 0),
    {
        bytes_mut_len(&self.send_buffer) != 0
    }
}

/// The abstract state of a decoder stream receiver.
pub struct DecoderStreamReceiverView {
    /// The bytes received and not yet read.
    pub buffer: Seq<u8>,
    /// The insert count the peer's decoder has acknowledged.
    pub known_received_count: u64,
}

/// The instruction at the start of `buf` and its length, given the encoder's
/// insert count: an Insert Count Increment of 0, or one beyond the entries
/// sent, is `DecodeFailed` (Section 4.4.3).
pub open spec fn decoder_instruction_decoding(buf: Seq<u8>, known: u64, total_insert_count: u64) -> Result<(DecoderInstruction, nat), QpackError> {
    if buf[0] & 0x80 != 0 {
        match prefix_int_decoding(buf, 7) {
            Err(e) => Err(e),
            Ok((v, c)) => Ok((DecoderInstruction::SectionAcknowledgment { stream_id: v as u64 }, c)),
        }
    } else if buf[0] & 0x40 != 0 {
        match prefix_int_decoding(buf, 6) {
            Err(e) => Err(e),
            Ok((v, c)) => Ok((DecoderInstruction::StreamCancellation { stream_id: v as u64 }, c)),
        }
    } else {
        match prefix_int_decoding(buf, 6) {
            Err(e) => Err(e),
            Ok((v, c)) => if v == 0 || known + v > total_insert_count {
                Err(QpackError::DecodeFailed)
            } else {
                Ok((DecoderInstruction::InsertCountIncrement { increment: v as u64 }, c))
            },
        }
    }
}

/// What `process` does: the next state and what it returns. A partial
/// instruction waits for more bytes; an error leaves the buffer as it was.
pub open spec fn decoder_process_outcome(v: DecoderStreamReceiverView, total_insert_count: u64) -> (DecoderStreamReceiverView, Result<Option<DecoderInstruction>, QpackError>) {
    if v.buffer.len() == 0 {
        (v, Ok(None))
    } else {
        match decoder_instruction_decoding(v.buffer, v.known_received_count, total_insert_count) {
            Err(QpackError::BufferTooShort) => (v, Ok(None)),
            Err(e) => (v, Err(e)),
            Ok((i, c)) => (
                DecoderStreamReceiverView {
                    buffer: v.buffer.skip(c as int),
                    known_received_count: match i {
                        DecoderInstruction::InsertCountIncrement { increment } => (v.known_received_count
                            + increment) as u64,
                        _ => v.known_received_count,
                    },
                },
                Ok(Some(i)),
            ),
        }
    }
}

/// The integer an instruction carries.
pub open spec fn decoder_instruction_value(i: DecoderInstruction) -> u64 {
    match i {
        DecoderInstruction::SectionAcknowledgment { stream_id } => stream_id,
        DecoderInstruction::StreamCancellation { stream_id } => stream_id,
        DecoderInstruction::InsertCountIncrement { increment } => increment,
    }
}

/// The first byte of a prefixed integer: the prefix and the low bits.
proof fn lemma_first_byte(value: nat, n: nat, prefix: u8, rest: Seq<u8>)
    requires
        n == 6 || n == 7,
    ensures
        (prefix_int_encoding(value, n, prefix) + rest)[0] == (prefix | (if value < prefix_max(n) {
            value as u8
        } else {
            prefix_max(n) as u8
        })),
{
}

/// A decoder instruction reads back as itself, whatever follows it, where
/// its integer is below 2^62 and an Insert Count Increment is one the
/// encoder can accept.
pub proof fn lemma_decoder_instruction_roundtrip(i: DecoderInstruction, rest: Seq<u8>, known: u64, total_insert_count: u64)
    requires
        decoder_instruction_value(i) < 0x4000_0000_0000_0000,
        i matches DecoderInstruction::InsertCountIncrement { increment } ==> 0 < increment && known + increment
            <= total_insert_count,
    ensures
        decoder_instruction_decoding(decoder_instruction_encoding(i) + rest, known, total_insert_count) == Ok::<
            (DecoderInstruction, nat),
            QpackError,
        >((i, decoder_instruction_encoding(i).len())),
{
    assert(pow128(9) == 0x8000_0000_0000_0000) by {
        reveal_with_fuel(pow128, 10);
    }
    let d = decoder_instruction_encoding(i) + rest;
    match i {
        DecoderInstruction::SectionAcknowledgment { stream_id } => {
            assert(prefix_max(7) == 127);
            assert(0x80u8 as nat % 128 == 0);
            lemma_prefix_int_roundtrip(stream_id as nat, 7, 0x80, rest);
            lemma_first_byte(stream_id as nat, 7, 0x80, rest);
            let x: u8 = if stream_id < 127 { stream_id as u8 } else { 127u8 };
            assert(d[0] == (0x80u8 | x));
            assert((0x80u8 | x) & 0x80 != 0) by (bit_vector);
        },
        DecoderInstruction::StreamCancellation { stream_id } => {
            assert(prefix_max(6) == 63);
            assert(0x40u8 as nat % 64 == 0);
            lemma_prefix_int_roundtrip(stream_id as nat, 6, 0x40, rest);
            lemma_first_byte(stream_id as nat, 6, 0x40, rest);
            let x: u8 = if stream_id < 63 { stream_id as u8 } else { 63u8 };
            assert(d[0] == (0x40u8 | x));
            assert((0x40u8 | x) & 0x80 == 0 && (0x40u8 | x) & 0x40 != 0) by (bit_vector)
                requires
                    x <= 63,
            ;
        },
        DecoderInstruction::InsertCountIncrement { increment } => {
            assert(prefix_max(6) == 63);
            assert(0x00u8 as nat % 64 == 0);
            lemma_prefix_int_roundtrip(increment as nat, 6, 0x00, rest);
            lemma_first_byte(increment as nat, 6, 0x00, rest);
            let x: u8 = if increment < 63 { increment as u8 } else { 63u8 };
            assert(d[0] == (0x00u8 | x));
            assert((0x00u8 | x) & 0x80 == 0 && (0x00u8 | x) & 0x40 == 0) by (bit_vector)
                requires
                    x <= 63,
            ;
        },
    }
}

/// The receiving side of the decoder stream.
#[derive(Debug)]
pub struct DecoderStreamReceiver {
    recv_buffer: bytes::BytesMut,
    known_received_count: u64,
}

impl View for DecoderStreamReceiver {
    type V = DecoderStreamReceiverView;

    closed spec fn view(&self) -> DecoderStreamReceiverView {
        DecoderStreamReceiverView {
            buffer: bytes_mut_contents(self.recv_buffer),
            known_received_count: self.known_received_count,
        }
    }
}

impl Default for DecoderStreamReceiver {
    fn default() -> (r: DecoderStreamReceiver)
        ensures
            r@ == (DecoderStreamReceiverView { buffer: Seq::empty(), known_received_count: 0 }),
    {
        DecoderStreamReceiver::new()
    }
}

impl DecoderStreamReceiver {
    /// A receiver with nothing received.
    pub fn new() -> (r: DecoderStreamReceiver)
        ensures
            r@ == (DecoderStreamReceiverView { buffer: Seq::empty(), known_received_count: 0 }),
    {
        DecoderStreamReceiver { recv_buffer: bytes_mut_new(), known_received_count: 0 }
    }

    /// The insert count the peer's decoder has acknowledged.
    pub fn known_received_count(&self) -> (r: u64)
        ensures
            r == self@.known_received_count,
    {
        self.known_received_count
    }

    /// Appends received bytes.
    pub fn receive(&mut self, data: &[u8])
        requires
            old(self)@.buffer.len() + data@.len() <= usize::MAX,
        ensures
            final(self)@ == (DecoderStreamReceiverView { buffer: old(self)@.buffer + data@, ..old(self)@ }),
    {
        bytes_mut_extend(&mut self.recv_buffer, data);
    }

    /// Reads the next instruction, if a whole one has arrived; an Insert
    /// Count Increment raises the known received count.
    pub fn process(&mut self, total_insert_count: u64) -> (r: Result<Option<DecoderInstruction>, QpackError>)
        ensures
            (final(self)@, r) == decoder_process_outcome(old(self)@, total_insert_count),
    {
        if bytes_mut_len(&self.recv_buffer) == 0 {
            return Ok(None);
        }
        let buf = bytes_mut_as_slice(&self.recv_buffer);
        let first = buf[0];
        let (prefix_bits, kind): (u8, u8) = if first & 0x80 != 0 {
            (7, 0)
        } else if first & 0x40 != 0 {
            (6, 1)
        } else {
            (6, 2)
        };
        let (value, consumed) = match decode_integer(buf, prefix_bits) {
            Ok(x) => x,
            Err(QpackError::BufferTooShort) => return Ok(None),
            Err(e) => return Err(e),
        };
        proof {
            lemma_prefix_int_bounds(buf@, prefix_bits as nat);
        }
        let instruction = if kind == 0 {
            DecoderInstruction::SectionAcknowledgment { stream_id: value }
        } else if kind == 1 {
            DecoderInstruction::StreamCancellation { stream_id: value }
        } else {
            if value == 0 {
                return Err(QpackError::DecodeFailed);
            }
            if (self.known_received_count as u128) + (value as u128) > (total_insert_count as u128) {
                return Err(QpackError::DecodeFailed);
            }
            self.known_received_count = self.known_received_count + value;
            DecoderInstruction::InsertCountIncrement { increment: value }
        };
        bytes_mut_advance(&mut self.recv_buffer, consumed);
        Ok(Some(instruction))
    }

    /// The bytes received and not yet read.
    pub fn buffer(&self) -> (r: &[u8])
        ensures
            r@ == self@.buffer,
    {
        bytes_mut_as_slice(&self.recv_buffer)
    }
}

/// The Known Received Count only grows by Insert Count Increments: after
/// a read that returns an increment of `k`, it is the count before plus
/// `k`, and never beyond the encoder's insert count; after any other read
/// it is unchanged. So increments add up across reads.
pub proof fn lemma_known_received_count_adds(v: DecoderStreamReceiverView, total_insert_count: u64)
    ensures
        ({
            let (w, r) = decoder_process_outcome(v, total_insert_count);
            &&& r matches Ok(Some(DecoderInstruction::InsertCountIncrement { increment })) ==> w.known_received_count
                == v.known_received_count + increment && w.known_received_count <= total_insert_count
                && increment > 0
            &&& !(r matches Ok(Some(DecoderInstruction::InsertCountIncrement { .. }))) ==> w.known_received_count
                == v.known_received_count
        }),
{
}

} // verus!
