//! The QPACK encoder stream (RFC 9204 Section 4.3): the instructions that
//! update the peer decoder's dynamic table, written and read (and applied
//! to a table).

use vstd::prelude::*;
use crate::error::QpackError;
use crate::qpack::integer::{prefix_int_encoding, prefix_int_decoding, encode_integer_to_vec, decode_integer,
    prefix_max, pow128, lemma_prefix_int_roundtrip};
use crate::qpack::roundtrip::{lemma_repr_roundtrip, lemma_string_roundtrip};
use crate::qpack::encoder::value_repr;
use crate::qpack::wire::{string_repr, string_decoding, string_decoding_with, push_string_with_prefix,
    decode_string, decode_string_with_prefix, lemma_prefix_int_bounds};
use crate::qpack::table::{STATIC_TABLE_LEN, static_name, get_static_entry};
use crate::qpack::dynamic_table::{DynamicTable, DynamicTableView, table_wf, insert_outcome, entry_at_relative,
    evicted, lemma_evicted_fits};
use crate::buf::{bytes_contents, bytes_from_vec};
use crate::bytes_be::append_bytes;

verus! {

/// An encoder instruction.
#[derive(Debug, PartialEq, Eq)]
pub enum EncoderInstruction {
    /// Set Dynamic Table Capacity (`001xxxxx`).
    SetDynamicTableCapacity {
        /// The new capacity.
        capacity: u64,
    },
    /// Insert with Name Reference (`1Txxxxxx`).
    InsertWithNameReference {
        /// A static table name, else a dynamic one by relative index.
        is_static: bool,
        /// The index of the name.
        name_index: u64,
        /// The value.
        value: bytes::Bytes,
    },
    /// Insert with Literal Name (`01Hxxxxx`).
    InsertWithLiteralName {
        /// The name.
        name: bytes::Bytes,
        /// The value.
        value: bytes::Bytes,
    },
    /// Duplicate (`000xxxxx`).
    Duplicate {
        /// The relative index of the entry copied.
        relative_index: u64,
    },
}

/// The abstract value of an encoder instruction.
pub enum EncoderInstructionView {
    /// Set Dynamic Table Capacity.
    SetDynamicTableCapacity { capacity: u64 },
    /// Insert with Name Reference.
    InsertWithNameReference { is_static: bool, name_index: u64, value: Seq<u8> },
    /// Insert with Literal Name.
    InsertWithLiteralName { name: Seq<u8>, value: Seq<u8> },
    /// Duplicate.
    Duplicate { relative_index: u64 },
}

impl View for EncoderInstruction {
    type V = EncoderInstructionView;

    open spec fn view(&self) -> EncoderInstructionView {
        match self {
            EncoderInstruction::SetDynamicTableCapacity { capacity } => EncoderInstructionView::SetDynamicTableCapacity {
                capacity: *capacity,
            },
            EncoderInstruction::InsertWithNameReference { is_static, name_index, value } => EncoderInstructionView::InsertWithNameReference {
                is_static: *is_static,
                name_index: *name_index,
                value: bytes_contents(*value),
            },
            EncoderInstruction::InsertWithLiteralName { name, value } => EncoderInstructionView::InsertWithLiteralName {
                name: bytes_contents(*name),
                value: bytes_contents(*value),
            },
            EncoderInstruction::Duplicate { relative_index } => EncoderInstructionView::Duplicate {
                relative_index: *relative_index,
            },
        }
    }
}

/// The abstract state of the sending side.
pub struct EncoderStreamView {
    /// The bytes waiting to be sent.
    pub buffer: Seq<u8>,
    /// The peer's maximum table capacity; 0 disables the table.
    pub max_table_capacity: u64,
}

/// The sending side of the encoder stream.
#[derive(Debug)]
pub struct EncoderStream {
    send_buffer: Vec<u8>,
    max_table_capacity: u64,
}

impl View for EncoderStream {
    type V = EncoderStreamView;

    closed spec fn view(&self) -> EncoderStreamView {
        EncoderStreamView { buffer: self.send_buffer@, max_table_capacity: self.max_table_capacity }
    }
}

impl Default for EncoderStream {
    fn default() -> (r: EncoderStream)
        ensures
            r@ == (EncoderStreamView { buffer: Seq::empty(), max_table_capacity: 0 }),
    {
        EncoderStream::new()
    }
}

/// `buf` without its first `n` bytes, or empty where `n` reaches its end.
pub open spec fn consumed(buf: Seq<u8>, n: nat) -> Seq<u8> {
    if n >= buf.len() {
        Seq::empty()
    } else {
        buf.skip(n as int)
    }
}

/// A copy of `s` from position `n` on.
fn tail_of(s: &[u8], n: usize) -> (r: Vec<u8>)
    requires
        n <= s@.len(),
    ensures
        r@ == s@.skip(n as int),
{
    let mut out: Vec<u8> = Vec::new();
    append_bytes(&mut out, &s[n..s.len()]);
    assert(out@ =~= s@.skip(n as int));
    out
}

impl EncoderStream {
    /// A stream with nothing to send and the table disabled.
    pub fn new() -> (r: EncoderStream)
        ensures
            r@ == (EncoderStreamView { buffer: Seq::empty(), max_table_capacity: 0 }),
    {
        EncoderStream { send_buffer: Vec::new(), max_table_capacity: 0 }
    }

    /// Queues the stream type, 0x02.
    pub fn write_stream_type(&mut self)
        ensures
            final(self)@ == (EncoderStreamView { buffer: old(self)@.buffer.push(0x02), ..old(self)@ }),
    {
        self.send_buffer.push(0x02);
    }

    /// Records the peer's maximum table capacity.
    pub fn set_max_table_capacity(&mut self, capacity: u64)
        ensures
            final(self)@ == (EncoderStreamView { max_table_capacity: capacity, ..old(self)@ }),
    {
        self.max_table_capacity = capacity;
    }

    /// Queues Set Dynamic Table Capacity; `DynamicTableDisabled` while the
    /// peer allows no table, `CapacityExceeded` above its maximum.
    pub fn encode_set_capacity(&mut self, capacity: u64) -> (r: Result<(), QpackError>)
        ensures
            old(self)@.max_table_capacity == 0 ==> r == Err::<(), QpackError>(QpackError::DynamicTableDisabled)
                && final(self)@ == old(self)@,
            old(self)@.max_table_capacity != 0 && capacity > old(self)@.max_table_capacity ==> r == Err::<
                (),
                QpackError,
            >(QpackError::CapacityExceeded) && final(self)@ == old(self)@,
            old(self)@.max_table_capacity != 0 && capacity <= old(self)@.max_table_capacity ==> r is Ok
                && final(self)@ == (EncoderStreamView {
                buffer: old(self)@.buffer + prefix_int_encoding(capacity as nat, 5, 0x20),
                ..old(self)@
            }),
    {
        if self.max_table_capacity == 0 {
            return Err(QpackError::DynamicTableDisabled);
        }
        if capacity > self.max_table_capacity {
            return Err(QpackError::CapacityExceeded);
        }
        encode_integer_to_vec(&mut self.send_buffer, capacity, 5, 0x20);
        Ok(())
    }

    /// Queues Insert with Name Reference; `DynamicTableDisabled` while the
    /// peer allows no table.
    pub fn encode_insert_with_name_ref(&mut self, is_static: bool, name_index: u64, value: &[u8]) -> (r: Result<(), QpackError>)
        ensures
            old(self)@.max_table_capacity == 0 ==> r == Err::<(), QpackError>(QpackError::DynamicTableDisabled)
                && final(self)@ == old(self)@,
            old(self)@.max_table_capacity != 0 ==> r is Ok && final(self)@ == (EncoderStreamView {
                buffer: old(self)@.buffer + prefix_int_encoding(name_index as nat, 6, if is_static { 0xc0 } else { 0x80 })
                    + string_repr(value@, 7, 0, 0x80, true),
                ..old(self)@
            }),
    {
        if self.max_table_capacity == 0 {
            return Err(QpackError::DynamicTableDisabled);
        }
        assert((1u8 << 7u8) == 0x80u8) by (bit_vector);
        let prefix: u8 = if is_static { 0xc0 } else { 0x80 };
        encode_integer_to_vec(&mut self.send_buffer, name_index, 6, prefix);
        push_string_with_prefix(&mut self.send_buffer, value, 7, 0x00, true);
        assert(self@.buffer =~= old(self)@.buffer + prefix_int_encoding(name_index as nat, 6, prefix)
            + string_repr(value@, 7, 0, 0x80, true));
        Ok(())
    }

    /// Queues Insert with Literal Name; `DynamicTableDisabled` while the
    /// peer allows no table.
    pub fn encode_insert_with_literal_name(&mut self, name: &[u8], value: &[u8]) -> (r: Result<(), QpackError>)
        ensures
            old(self)@.max_table_capacity == 0 ==> r == Err::<(), QpackError>(QpackError::DynamicTableDisabled)
                && final(self)@ == old(self)@,
            old(self)@.max_table_capacity != 0 ==> r is Ok && final(self)@ == (EncoderStreamView {
                buffer: old(self)@.buffer + string_repr(name@, 5, 0x40, 0x20, true) + string_repr(value@, 7, 0, 0x80, true),
                ..old(self)@
            }),
    {
        if self.max_table_capacity == 0 {
            return Err(QpackError::DynamicTableDisabled);
        }
        assert((1u8 << 7u8) == 0x80u8 && (1u8 << 5u8) == 0x20u8) by (bit_vector);
        push_string_with_prefix(&mut self.send_buffer, name, 5, 0x40, true);
        push_string_with_prefix(&mut self.send_buffer, value, 7, 0x00, true);
        assert(self@.buffer =~= old(self)@.buffer + string_repr(name@, 5, 0x40, 0x20, true) + string_repr(value@, 7, 0, 0x80, true));
        Ok(())
    }

    /// Queues Duplicate; `DynamicTableDisabled` while the peer allows no
    /// table.
    pub fn encode_duplicate(&mut self, relative_index: u64) -> (r: Result<(), QpackError>)
        ensures
            old(self)@.max_table_capacity == 0 ==> r == Err::<(), QpackError>(QpackError::DynamicTableDisabled)
                && final(self)@ == old(self)@,
            old(self)@.max_table_capacity != 0 ==> r is Ok && final(self)@ == (EncoderStreamView {
                buffer: old(self)@.buffer + prefix_int_encoding(relative_index as nat, 5, 0x00),
                ..old(self)@
            }),
    {
        if self.max_table_capacity == 0 {
            return Err(QpackError::DynamicTableDisabled);
        }
        encode_integer_to_vec(&mut self.send_buffer, relative_index, 5, 0x00);
        Ok(())
    }

    /// The bytes waiting to be sent.
    pub fn get_data(&self) -> (r: &[u8])
        ensures
            r@ == self@.buffer,
    {
        self.send_buffer.as_slice()
    }

    /// Drops the first `len` bytes, which were sent.
    pub fn consume_data(&mut self, len: usize)
        ensures
            final(self)@ == (EncoderStreamView { buffer: consumed(old(self)@.buffer, len as nat), ..old(self)@ }),
    {
        if len >= self.send_buffer.len() {
            self.send_buffer.clear();
            assert(self@.buffer =~= Seq::<u8>::empty());
        } else {
            let rest = tail_of(self.send_buffer.as_slice(), len);
            self.send_buffer = rest;
        }
    }

    /// Whether bytes wait to be sent.
    pub fn has_pending(&self) -> (r: bool)
        ensures
            r == (self@.buffer.len() > 0),
    {
        self.send_buffer.len() != 0
    }
}

/// The abstract state of the receiving side.
pub struct EncoderStreamReceiverView {
    /// The bytes received and not yet read.
    pub buffer: Seq<u8>,
    /// The table capacity this side allows.
    pub max_table_capacity: u64,
}

/// What reading an instruction does: the remaining bytes, the table, and
/// the result.
pub type ProcessOutcome = (Seq<u8>, DynamicTableView, Result<Option<EncoderInstructionView>, QpackError>);

/// Inserting `name` and `value` after an instruction was read up to `rest`.
pub open spec fn insert_step(rest: Seq<u8>, t: DynamicTableView, name: Seq<u8>, value: Seq<u8>, i: EncoderInstructionView, fail: QpackError) -> ProcessOutcome {
    let (t2, r) = insert_outcome(t, name, value);
    match r {
        None => (rest, t2, Err(fail)),
        Some(_) => (rest, t2, Ok(Some(i))),
    }
}

/// The name a reference points at: a static entry's, or a dynamic entry's
/// by relative index.
pub open spec fn referenced_name(t: DynamicTableView, is_static: bool, idx: nat) -> Option<Seq<u8>> {
    if is_static {
        if idx < STATIC_TABLE_LEN {
            Some(static_name(idx as int))
        } else {
            None
        }
    } else {
        match entry_at_relative(t, idx as u64) {
            Some(e) => Some(e.name),
            None => None,
        }
    }
}

/// Insert with Name Reference.
pub open spec fn name_ref_outcome(buf: Seq<u8>, t: DynamicTableView) -> ProcessOutcome {
    match prefix_int_decoding(buf, 6) {
        Err(QpackError::BufferTooShort) => (buf, t, Ok(None)),
        Err(e) => (buf, t, Err(e)),
        Ok((idx, c)) => match string_decoding(buf.skip(c as int)) {
            Err(QpackError::BufferTooShort) => (buf, t, Ok(None)),
            Err(e) => (buf, t, Err(e)),
            Ok((value, vl)) => {
                let rest = buf.skip((c + vl) as int);
                let is_static = buf[0] & 0x40 != 0;
                match referenced_name(t, is_static, idx) {
                    None => (rest, t, Err(QpackError::InvalidIndex(idx as u64))),
                    Some(n) => insert_step(
                        rest,
                        t,
                        n,
                        value,
                        EncoderInstructionView::InsertWithNameReference { is_static, name_index: idx as u64, value },
                        QpackError::DecodeFailed,
                    ),
                }
            },
        },
    }
}

/// Insert with Literal Name.
pub open spec fn literal_outcome(buf: Seq<u8>, t: DynamicTableView) -> ProcessOutcome {
    match string_decoding_with(buf, 5, 0x20) {
        Err(QpackError::BufferTooShort) => (buf, t, Ok(None)),
        Err(e) => (buf, t, Err(e)),
        Ok((name, c)) => match string_decoding(buf.skip(c as int)) {
            Err(QpackError::BufferTooShort) => (buf, t, Ok(None)),
            Err(e) => (buf, t, Err(e)),
            Ok((value, vl)) => insert_step(
                buf.skip((c + vl) as int),
                t,
                name,
                value,
                EncoderInstructionView::InsertWithLiteralName { name, value },
                QpackError::DecodeFailed,
            ),
        },
    }
}

/// Set Dynamic Table Capacity: above the allowed maximum it is
/// `DecodeFailed` and nothing is consumed.
pub open spec fn capacity_outcome(buf: Seq<u8>, max_table_capacity: u64, t: DynamicTableView) -> ProcessOutcome {
    match prefix_int_decoding(buf, 5) {
        Err(QpackError::BufferTooShort) => (buf, t, Ok(None)),
        Err(e) => (buf, t, Err(e)),
        Ok((cap, c)) => if cap > max_table_capacity {
            (buf, t, Err(QpackError::DecodeFailed))
        } else {
            (
                buf.skip(c as int),
                evicted(DynamicTableView { max_capacity: cap as u64, ..t }, 0),
                Ok(Some(EncoderInstructionView::SetDynamicTableCapacity { capacity: cap as u64 })),
            )
        },
    }
}

/// Duplicate.
pub open spec fn duplicate_outcome(buf: Seq<u8>, t: DynamicTableView) -> ProcessOutcome {
    match prefix_int_decoding(buf, 5) {
        Err(QpackError::BufferTooShort) => (buf, t, Ok(None)),
        Err(e) => (buf, t, Err(e)),
        Ok((rel, c)) => match entry_at_relative(t, rel as u64) {
            None => (buf.skip(c as int), t, Err(QpackError::InvalidIndex(rel as u64))),
            Some(e) => insert_step(
                buf.skip(c as int),
                t,
                e.name,
                e.value,
                EncoderInstructionView::Duplicate { relative_index: rel as u64 },
                QpackError::InvalidIndex(rel as u64),
            ),
        },
    }
}

/// What reading the next instruction from `buf` does to the buffer and the
/// table, and what it returns. A partial instruction waits for more bytes
/// and changes nothing; an instruction that fails after being read is
/// consumed, with whatever evictions its insertion made.
pub open spec fn encoder_process_outcome(buf: Seq<u8>, max_table_capacity: u64, t: DynamicTableView) -> ProcessOutcome {
    if buf.len() == 0 {
        (buf, t, Ok(None))
    } else if buf[0] & 0x80 != 0 {
        name_ref_outcome(buf, t)
    } else if buf[0] & 0x40 != 0 {
        literal_outcome(buf, t)
    } else if buf[0] & 0x20 != 0 {
        capacity_outcome(buf, max_table_capacity, t)
    } else {
        duplicate_outcome(buf, t)
    }
}

/// Whether an executed step matches an outcome.
pub open spec fn step_matches(o: ProcessOutcome, before: EncoderStreamReceiverView, after: EncoderStreamReceiverView, table_after: DynamicTableView, r: Result<Option<EncoderInstruction>, QpackError>) -> bool {
    let (b, t, out) = o;
    &&& after == (EncoderStreamReceiverView { buffer: b, ..before })
    &&& table_after == t
    &&& match out {
        Ok(Some(i)) => r matches Ok(Some(x)) && x@ == i,
        Ok(None) => r matches Ok(None),
        Err(e) => r == Err::<Option<EncoderInstruction>, QpackError>(e),
    }
}

/// The first byte of a prefixed integer: the prefix and the low bits.
proof fn lemma_first_byte(value: nat, n: nat, prefix: u8, rest: Seq<u8>)
    requires
        n == 5 || n == 6,
    ensures
        (prefix_int_encoding(value, n, prefix) + rest)[0] == (prefix | (if value < prefix_max(n) {
            value as u8
        } else {
            prefix_max(n) as u8
        })),
        prefix_int_encoding(value, n, prefix).len() > 0,
{
}

/// Insert with Literal Name, as the encoder stream writes it, reads back on
/// the peer's side as that instruction and inserts the entry into the
/// peer's table, where the insertion succeeds there.
pub proof fn lemma_literal_insert_roundtrip(name: Seq<u8>, value: Seq<u8>, rest: Seq<u8>, max_table_capacity: u64, t: DynamicTableView)
    requires
        name.len() < 0x4000_0000_0000_0000,
        value.len() < 0x4000_0000_0000_0000,
        insert_outcome(t, name, value).1 is Some,
    ensures
        encoder_process_outcome(
            string_repr(name, 5, 0x40, 0x20, true) + string_repr(value, 7, 0, 0x80, true) + rest,
            max_table_capacity,
            t,
        ) == (rest, insert_outcome(t, name, value).0, Ok::<Option<EncoderInstructionView>, QpackError>(
            Some(EncoderInstructionView::InsertWithLiteralName { name, value }),
        )),
{
    let nr = string_repr(name, 5, 0x40, 0x20, true);
    let vr = string_repr(value, 7, 0, 0x80, true);
    let d = nr + vr + rest;
    assert(d =~= nr + (vr + rest));
    lemma_repr_roundtrip(name, vr + rest, 5, 0x40, 0x20, true);
    assert(string_decoding_with(d, 5, 0x20) == Ok::<(Seq<u8>, nat), QpackError>((name, nr.len())));
    assert(d.skip(nr.len() as int) =~= vr + rest);
    lemma_string_roundtrip(value, rest, true);
    assert(value_repr(value, true) == vr);
    assert(d.skip((nr.len() + vr.len()) as int) =~= rest);
}

/// Insert with Name Reference, as the encoder stream writes it, reads back
/// on the peer's side as that instruction and inserts the entry into the
/// peer's table, where the name is there and the insertion succeeds.
pub proof fn lemma_name_ref_insert_roundtrip(is_static: bool, name_index: u64, value: Seq<u8>, rest: Seq<u8>, max_table_capacity: u64, t: DynamicTableView)
    requires
        name_index < 0x4000_0000_0000_0000,
        value.len() < 0x4000_0000_0000_0000,
        referenced_name(t, is_static, name_index as nat) is Some,
        insert_outcome(t, referenced_name(t, is_static, name_index as nat)->0, value).1 is Some,
    ensures
        encoder_process_outcome(
            prefix_int_encoding(name_index as nat, 6, if is_static { 0xc0 } else { 0x80 }) + string_repr(value, 7, 0, 0x80, true) + rest,
            max_table_capacity,
            t,
        ) == (rest, insert_outcome(t, referenced_name(t, is_static, name_index as nat)->0, value).0, Ok::<
            Option<EncoderInstructionView>,
            QpackError,
        >(Some(EncoderInstructionView::InsertWithNameReference { is_static, name_index, value }))),
{
    let prefix: u8 = if is_static { 0xc0 } else { 0x80 };
    let p = prefix_int_encoding(name_index as nat, 6, prefix);
    let vr = string_repr(value, 7, 0, 0x80, true);
    let d = p + vr + rest;
    assert(d =~= p + (vr + rest));
    assert(pow128(9) == 0x8000_0000_0000_0000) by {
        reveal_with_fuel(pow128, 10);
    }
    assert(prefix_max(6) + 1 == 64);
    assert(prefix as nat % 64 == 0);
    lemma_prefix_int_roundtrip(name_index as nat, 6, prefix, vr + rest);
    lemma_first_byte(name_index as nat, 6, prefix, vr + rest);
    let x: u8 = if name_index < 63 { name_index as u8 } else { 63u8 };
    assert(d[0] == (prefix | x));
    assert((prefix | x) & 0x80 != 0 && ((prefix | x) & 0x40 != 0) == (prefix == 0xc0)) by (bit_vector)
        requires
            prefix == 0xc0 || prefix == 0x80,
            x <= 63,
    ;
    assert(d.skip(p.len() as int) =~= vr + rest);
    lemma_string_roundtrip(value, rest, true);
    assert(value_repr(value, true) == vr);
    assert(d.skip((p.len() + vr.len()) as int) =~= rest);
}

/// Set Dynamic Table Capacity, as the encoder stream writes it, reads back
/// on the peer's side as that instruction and sets the peer's capacity,
/// where it is within the peer's maximum; above it, it is refused and
/// neither the stream nor the table changes.
pub proof fn lemma_capacity_roundtrip(capacity: u64, rest: Seq<u8>, max_table_capacity: u64, t: DynamicTableView)
    requires
        capacity < 0x4000_0000_0000_0000,
    ensures
        capacity <= max_table_capacity ==> encoder_process_outcome(
            prefix_int_encoding(capacity as nat, 5, 0x20) + rest,
            max_table_capacity,
            t,
        ) == (
            rest,
            evicted(DynamicTableView { max_capacity: capacity, ..t }, 0),
            Ok::<Option<EncoderInstructionView>, QpackError>(
                Some(EncoderInstructionView::SetDynamicTableCapacity { capacity }),
            ),
        ),
        capacity > max_table_capacity ==> encoder_process_outcome(
            prefix_int_encoding(capacity as nat, 5, 0x20) + rest,
            max_table_capacity,
            t,
        ) == (
            prefix_int_encoding(capacity as nat, 5, 0x20) + rest,
            t,
            Err::<Option<EncoderInstructionView>, QpackError>(QpackError::DecodeFailed),
        ),
{
    let p = prefix_int_encoding(capacity as nat, 5, 0x20);
    let d = p + rest;
    assert(pow128(9) == 0x8000_0000_0000_0000) by {
        reveal_with_fuel(pow128, 10);
    }
    assert(prefix_max(5) + 1 == 32);
    assert(0x20u8 as nat % 32 == 0);
    lemma_prefix_int_roundtrip(capacity as nat, 5, 0x20, rest);
    lemma_first_byte(capacity as nat, 5, 0x20, rest);
    let x: u8 = if capacity < 31 { capacity as u8 } else { 31u8 };
    assert(d[0] == (0x20u8 | x));
    assert((0x20u8 | x) & 0x80 == 0 && (0x20u8 | x) & 0x40 == 0 && (0x20u8 | x) & 0x20 != 0) by (bit_vector)
        requires
            x <= 31,
    ;
    assert(d.skip(p.len() as int) =~= rest);
}

/// Duplicate, as the encoder stream writes it, reads back on the peer's
/// side as that instruction and copies the entry in the peer's table, where
/// the entry is there and the copy succeeds.
pub proof fn lemma_duplicate_roundtrip(relative_index: u64, rest: Seq<u8>, max_table_capacity: u64, t: DynamicTableView)
    requires
        relative_index < 0x4000_0000_0000_0000,
        entry_at_relative(t, relative_index) is Some,
        insert_outcome(t, entry_at_relative(t, relative_index)->0.name, entry_at_relative(t, relative_index)->0.value).1 is Some,
    ensures
        encoder_process_outcome(prefix_int_encoding(relative_index as nat, 5, 0x00) + rest, max_table_capacity, t) == (
            rest,
            insert_outcome(t, entry_at_relative(t, relative_index)->0.name, entry_at_relative(t, relative_index)->0.value).0,
            Ok::<Option<EncoderInstructionView>, QpackError>(Some(EncoderInstructionView::Duplicate { relative_index })),
        ),
{
    let p = prefix_int_encoding(relative_index as nat, 5, 0x00);
    let d = p + rest;
    assert(pow128(9) == 0x8000_0000_0000_0000) by {
        reveal_with_fuel(pow128, 10);
    }
    assert(prefix_max(5) + 1 == 32);
    assert(0x00u8 as nat % 32 == 0);
    lemma_prefix_int_roundtrip(relative_index as nat, 5, 0x00, rest);
    lemma_first_byte(relative_index as nat, 5, 0x00, rest);
    let x: u8 = if relative_index < 31 { relative_index as u8 } else { 31u8 };
    assert(d[0] == (0x00u8 | x));
    assert((0x00u8 | x) & 0x80 == 0 && (0x00u8 | x) & 0x40 == 0 && (0x00u8 | x) & 0x20 == 0) by (bit_vector)
        requires
            x <= 31,
    ;
    assert(d.skip(p.len() as int) =~= rest);
}

/// The receiving side of the encoder stream.
#[derive(Debug)]
pub struct EncoderStreamReceiver {
    recv_buffer: Vec<u8>,
    max_table_capacity: u64,
}

impl View for EncoderStreamReceiver {
    type V = EncoderStreamReceiverView;

    closed spec fn view(&self) -> EncoderStreamReceiverView {
        EncoderStreamReceiverView { buffer: self.recv_buffer@, max_table_capacity: self.max_table_capacity }
    }
}

impl Default for EncoderStreamReceiver {
    fn default() -> (r: EncoderStreamReceiver)
        ensures
            r@ == (EncoderStreamReceiverView { buffer: Seq::empty(), max_table_capacity: 0 }),
    {
        EncoderStreamReceiver::new()
    }
}

impl EncoderStreamReceiver {
    /// A receiver with nothing received, allowing no table.
    pub fn new() -> (r: EncoderStreamReceiver)
        ensures
            r@ == (EncoderStreamReceiverView { buffer: Seq::empty(), max_table_capacity: 0 }),
    {
        EncoderStreamReceiver { recv_buffer: Vec::new(), max_table_capacity: 0 }
    }

    /// Sets the table capacity this side allows.
    pub fn set_max_table_capacity(&mut self, capacity: u64)
        ensures
            final(self)@ == (EncoderStreamReceiverView { max_table_capacity: capacity, ..old(self)@ }),
    {
        self.max_table_capacity = capacity;
    }

    /// Appends received bytes.
    pub fn receive(&mut self, data: &[u8])
        ensures
            final(self)@ == (EncoderStreamReceiverView { buffer: old(self)@.buffer + data@, ..old(self)@ }),
    {
        append_bytes(&mut self.recv_buffer, data);
    }

    /// Drops the first `n` received bytes.
    fn drop_front(&mut self, n: usize)
        requires
            n <= old(self)@.buffer.len(),
        ensures
            final(self)@ == (EncoderStreamReceiverView { buffer: old(self)@.buffer.skip(n as int), ..old(self)@ }),
    {
        let rest = tail_of(self.recv_buffer.as_slice(), n);
        self.recv_buffer = rest;
    }

    /// Reads an Insert with Name Reference.
    fn process_name_ref(&mut self, table: &mut DynamicTable) -> (r: Result<Option<EncoderInstruction>, QpackError>)
        requires
            table_wf(old(table)@),
            old(self)@.buffer.len() > 0,
        ensures
            step_matches(name_ref_outcome(old(self)@.buffer, old(table)@), old(self)@, final(self)@, final(table)@, r),
            table_wf(final(table)@),
    {
        let first = self.recv_buffer[0];
        let (name_index, consumed_len) = match decode_integer(self.recv_buffer.as_slice(), 6) {
            Ok(x) => x,
            Err(QpackError::BufferTooShort) => return Ok(None),
            Err(e) => return Err(e),
        };
        proof {
            lemma_prefix_int_bounds(self.recv_buffer@, 6);
        }
        let rest = &self.recv_buffer.as_slice()[consumed_len..self.recv_buffer.len()];
        assert(rest@ =~= self.recv_buffer@.skip(consumed_len as int));
        let (value, value_len) = match decode_string(rest) {
            Ok(x) => x,
            Err(QpackError::BufferTooShort) => return Ok(None),
            Err(e) => return Err(e),
        };
        proof {
            lemma_prefix_int_bounds(rest@, 7);
        }
        let is_static = (first & 0x40) != 0;
        self.drop_front(consumed_len + value_len);
        proof {
            assert(old(self)@.buffer.skip(consumed_len as int).skip(value_len as int) =~= old(self)@.buffer.skip(
                (consumed_len + value_len) as int,
            ));
        }
        let name: Vec<u8> = if is_static {
            if name_index >= STATIC_TABLE_LEN as u64 {
                return Err(QpackError::InvalidIndex(name_index));
            }
            match get_static_entry(name_index as usize) {
                Some(h) => {
                    let mut n: Vec<u8> = Vec::new();
                    append_bytes(&mut n, h.name());
                    n
                },
                None => return Err(QpackError::InvalidIndex(name_index)),
            }
        } else {
            match table.get_by_relative_index_encoder(name_index) {
                Some(e) => e.name.clone(),
                None => return Err(QpackError::InvalidIndex(name_index)),
            }
        };
        let stored = value.clone();
        match table.insert(name, stored) {
            Some(_) => {},
            None => return Err(QpackError::DecodeFailed),
        }
        Ok(Some(EncoderInstruction::InsertWithNameReference { is_static, name_index, value: bytes_from_vec(value) }))
    }

    /// Reads an Insert with Literal Name.
    fn process_literal(&mut self, table: &mut DynamicTable) -> (r: Result<Option<EncoderInstruction>, QpackError>)
        requires
            table_wf(old(table)@),
            old(self)@.buffer.len() > 0,
        ensures
            step_matches(literal_outcome(old(self)@.buffer, old(table)@), old(self)@, final(self)@, final(table)@, r),
            table_wf(final(table)@),
    {
        assert((1u8 << 5u8) == 0x20u8) by (bit_vector);
        let (name, name_len) = match decode_string_with_prefix(self.recv_buffer.as_slice(), 5) {
            Ok(x) => x,
            Err(QpackError::BufferTooShort) => return Ok(None),
            Err(e) => return Err(e),
        };
        proof {
            lemma_prefix_int_bounds(self.recv_buffer@, 5);
        }
        let rest = &self.recv_buffer.as_slice()[name_len..self.recv_buffer.len()];
        assert(rest@ =~= self.recv_buffer@.skip(name_len as int));
        let (value, value_len) = match decode_string(rest) {
            Ok(x) => x,
            Err(QpackError::BufferTooShort) => return Ok(None),
            Err(e) => return Err(e),
        };
        proof {
            lemma_prefix_int_bounds(rest@, 7);
        }
        self.drop_front(name_len + value_len);
        proof {
            assert(old(self)@.buffer.skip(name_len as int).skip(value_len as int) =~= old(self)@.buffer.skip(
                (name_len + value_len) as int,
            ));
        }
        match table.insert(name.clone(), value.clone()) {
            Some(_) => {},
            None => return Err(QpackError::DecodeFailed),
        }
        Ok(Some(EncoderInstruction::InsertWithLiteralName { name: bytes_from_vec(name), value: bytes_from_vec(value) }))
    }

    /// Reads a Set Dynamic Table Capacity.
    fn process_capacity(&mut self, table: &mut DynamicTable) -> (r: Result<Option<EncoderInstruction>, QpackError>)
        requires
            table_wf(old(table)@),
            old(self)@.buffer.len() > 0,
        ensures
            step_matches(
                capacity_outcome(old(self)@.buffer, old(self)@.max_table_capacity, old(table)@),
                old(self)@,
                final(self)@,
                final(table)@,
                r,
            ),
            table_wf(final(table)@),
    {
        let (capacity, consumed_len) = match decode_integer(self.recv_buffer.as_slice(), 5) {
            Ok(x) => x,
            Err(QpackError::BufferTooShort) => return Ok(None),
            Err(e) => return Err(e),
        };
        proof {
            lemma_prefix_int_bounds(self.recv_buffer@, 5);
        }
        if capacity > self.max_table_capacity {
            return Err(QpackError::DecodeFailed);
        }
        let blen = self.recv_buffer.len();
        assert(consumed_len <= blen);
        self.drop_front(consumed_len);
        table.set_capacity(capacity);
        Ok(Some(EncoderInstruction::SetDynamicTableCapacity { capacity }))
    }

    /// Reads a Duplicate.
    fn process_duplicate(&mut self, table: &mut DynamicTable) -> (r: Result<Option<EncoderInstruction>, QpackError>)
        requires
            table_wf(old(table)@),
            old(self)@.buffer.len() > 0,
        ensures
            step_matches(duplicate_outcome(old(self)@.buffer, old(table)@), old(self)@, final(self)@, final(table)@, r),
            table_wf(final(table)@),
    {
        let (relative_index, consumed_len) = match decode_integer(self.recv_buffer.as_slice(), 5) {
            Ok(x) => x,
            Err(QpackError::BufferTooShort) => return Ok(None),
            Err(e) => return Err(e),
        };
        proof {
            lemma_prefix_int_bounds(self.recv_buffer@, 5);
        }
        let blen = self.recv_buffer.len();
        assert(consumed_len <= blen);
        self.drop_front(consumed_len);
        match table.duplicate(relative_index) {
            Some(_) => Ok(Some(EncoderInstruction::Duplicate { relative_index })),
            None => Err(QpackError::InvalidIndex(relative_index)),
        }
    }

    /// Reads the next instruction, if a whole one has arrived, and applies
    /// it to `table`.
    pub fn process(&mut self, table: &mut DynamicTable) -> (r: Result<Option<EncoderInstruction>, QpackError>)
        requires
            table_wf(old(table)@),
        ensures
            step_matches(
                encoder_process_outcome(old(self)@.buffer, old(self)@.max_table_capacity, old(table)@),
                old(self)@,
                final(self)@,
                final(table)@,
                r,
            ),
            table_wf(final(table)@),
    {
        if self.recv_buffer.len() == 0 {
            return Ok(None);
        }
        let first = self.recv_buffer[0];
        if first & 0x80 != 0 {
            self.process_name_ref(table)
        } else if first & 0x40 != 0 {
            self.process_literal(table)
        } else if first & 0x20 != 0 {
            self.process_capacity(table)
        } else {
            self.process_duplicate(table)
        }
    }

    /// The bytes received and not yet read.
    pub fn buffer(&self) -> (r: &[u8])
        ensures
            r@ == self@.buffer,
    {
        self.recv_buffer.as_slice()
    }
}

/// Insert with Name Reference to the dynamic table (T = 0) names the entry
/// at relative index `name_index`, counting from the newest entry
/// (Section 3.2.5): it inserts that entry's name with the new value, where
/// the index is within the table and the insertion succeeds.
pub proof fn lemma_dynamic_name_ref_inserts_relative(name_index: u64, value: Seq<u8>, rest: Seq<u8>, max_table_capacity: u64, t: DynamicTableView)
    requires
        name_index < t.entries.len(),
        name_index < 0x4000_0000_0000_0000,
        value.len() < 0x4000_0000_0000_0000,
        insert_outcome(t, t.entries[name_index as int].name, value).1 is Some,
    ensures
        encoder_process_outcome(
            prefix_int_encoding(name_index as nat, 6, 0x80) + string_repr(value, 7, 0, 0x80, true) + rest,
            max_table_capacity,
            t,
        ) == (rest, insert_outcome(t, t.entries[name_index as int].name, value).0, Ok::<
            Option<EncoderInstructionView>,
            QpackError,
        >(Some(EncoderInstructionView::InsertWithNameReference { is_static: false, name_index, value }))),
{
    assert(referenced_name(t, false, name_index as nat) == Some(t.entries[name_index as int].name));
    lemma_name_ref_insert_roundtrip(false, name_index, value, rest, max_table_capacity, t);
}

/// Duplicate names the entry at relative index `relative_index`, counting
/// from the newest entry (Section 4.3.4): it inserts a copy of that entry's
/// name and value, where the index is within the table and the copy
/// succeeds.
pub proof fn lemma_duplicate_copies_relative(relative_index: u64, rest: Seq<u8>, max_table_capacity: u64, t: DynamicTableView)
    requires
        relative_index < t.entries.len(),
        relative_index < 0x4000_0000_0000_0000,
        insert_outcome(t, t.entries[relative_index as int].name, t.entries[relative_index as int].value).1 is Some,
    ensures
        encoder_process_outcome(prefix_int_encoding(relative_index as nat, 5, 0x00) + rest, max_table_capacity, t) == (
            rest,
            insert_outcome(t, t.entries[relative_index as int].name, t.entries[relative_index as int].value).0,
            Ok::<Option<EncoderInstructionView>, QpackError>(Some(EncoderInstructionView::Duplicate { relative_index })),
        ),
{
    assert(entry_at_relative(t, relative_index) == Some(t.entries[relative_index as int]));
    lemma_duplicate_roundtrip(relative_index, rest, max_table_capacity, t);
}

/// Set Dynamic Table Capacity within the peer's maximum makes that the
/// table's capacity and, where no entry is pinned, evicts from the oldest
/// end until the entries fit in it (Section 4.3.1); the entries left are
/// the newest of the old ones, in order.
pub proof fn lemma_capacity_shrinks_table(capacity: u64, rest: Seq<u8>, max_table_capacity: u64, t: DynamicTableView)
    requires
        capacity < 0x4000_0000_0000_0000,
        capacity <= max_table_capacity,
        table_wf(t),
        t.eviction_limit <= t.dropped_count,
    ensures
        ({
            let w = encoder_process_outcome(prefix_int_encoding(capacity as nat, 5, 0x20) + rest, max_table_capacity, t).1;
            &&& table_wf(w)
            &&& w.max_capacity == capacity
            &&& w.current_size <= capacity
            &&& w.entries == t.entries.take(w.entries.len() as int)
        }),
{
    lemma_capacity_roundtrip(capacity, rest, max_table_capacity, t);
    let t2 = DynamicTableView { max_capacity: capacity, ..t };
    lemma_evicted_fits(t2, 0);
}

} // verus!
