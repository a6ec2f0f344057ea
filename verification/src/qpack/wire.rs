//! String literals of the QPACK wire format (RFC 7541 Section 5.2, RFC 9204
//! Section 4.1.2), shared by the encoders and decoders: a length with an
//! `H` bit in front of an N-bit prefix, then the bytes, Huffman-coded when
//! that is shorter and the encoder allows it.

use vstd::prelude::*;
use crate::error::QpackError;
use crate::qpack::integer::{prefix_int_encoding, prefix_int_decoding, continuation_decoding, pow128,
    encode_integer_to_vec, decode_integer, prefix_max};
use crate::qpack::huffman::{huffman_encoding, huffman_decoding, encode_to_vec, decode};
use crate::bytes_be::append_bytes;

verus! {

/// A string literal: the length in an `n`-bit prefix after `prefix`, then
/// the bytes; Huffman-coded, with `hbit` set, when allowed and shorter.
pub open spec fn string_repr(data: Seq<u8>, n: nat, prefix: u8, hbit: u8, use_huffman: bool) -> Seq<u8> {
    let h = huffman_encoding(data);
    if use_huffman && h.len() < data.len() {
        prefix_int_encoding(h.len(), n, prefix | hbit) + h
    } else {
        prefix_int_encoding(data.len(), n, prefix) + data
    }
}

/// The bytes of a string literal of `length` bytes at the start of `data`,
/// decoded when Huffman-coded.
pub open spec fn string_bytes_decoding(data: Seq<u8>, length: nat, is_huffman: bool) -> Result<(Seq<u8>, nat), QpackError> {
    if data.len() < length {
        Err(QpackError::BufferTooShort)
    } else {
        let raw = data.take(length as int);
        if is_huffman {
            match huffman_decoding(raw) {
                Ok(s) => Ok((s, length)),
                Err(e) => Err(e),
            }
        } else {
            Ok((raw, length))
        }
    }
}

/// A string literal with a 7-bit length prefix at the start of `data`: its
/// bytes and the length of the literal.
pub open spec fn string_decoding(data: Seq<u8>) -> Result<(Seq<u8>, nat), QpackError> {
    if data.len() == 0 {
        Err(QpackError::BufferTooShort)
    } else {
        match prefix_int_decoding(data, 7) {
            Err(e) => Err(e),
            Ok((length, p)) => match string_bytes_decoding(data.skip(p as int), length, data[0] & 0x80 != 0) {
                Ok((s, m)) => Ok((s, p + m)),
                Err(e) => Err(e),
            },
        }
    }
}

/// Continuation bytes end within the data, after where they start.
proof fn lemma_continuation_bounds(data: Seq<u8>, off: nat, k: nat)
    ensures
        continuation_decoding(data, off, k) matches Ok((v, e)) ==> off < e <= data.len(),
    decreases 9 - k,
{
    if off < data.len() && data[off as int] >= 128 && k < 8 {
        lemma_continuation_bounds(data, off + 1, k + 1);
    }
}

/// The value of continuation bytes read from group `k` on stays below
/// `128^9` less one group's weight.
proof fn lemma_continuation_value(data: Seq<u8>, off: nat, k: nat)
    requires
        k <= 8,
    ensures
        continuation_decoding(data, off, k) matches Ok((v, e)) ==> v + pow128(k) <= pow128(9),
    decreases 9 - k,
{
    if off < data.len() {
        let b = data[off as int];
        let add = (b % 128) as nat * pow128(k);
        assert(pow128(k + 1) == 128 * pow128(k));
        lemma_pow128_mono(k + 1, 9);
        assert(add + pow128(k) <= pow128(k + 1)) by (nonlinear_arith)
            requires
                add == (b % 128) as nat * pow128(k),
                b % 128 < 128,
                pow128(k + 1) == 128 * pow128(k),
        ;
        if b >= 128 && k < 8 {
            lemma_continuation_value(data, off + 1, k + 1);
        }
    }
}

/// `128^a <= 128^b` for `a <= b`.
proof fn lemma_pow128_mono(a: nat, b: nat)
    requires
        a <= b,
    ensures
        pow128(a) <= pow128(b),
    decreases b,
{
    if a < b {
        lemma_pow128_mono(a, (b - 1) as nat);
        assert(pow128(b) == 128 * pow128((b - 1) as nat));
    }
}

/// A decoded prefix integer takes at least one byte, lies within the data,
/// and fits in 64 bits.
pub proof fn lemma_prefix_int_bounds(data: Seq<u8>, n: nat)
    ensures
        prefix_int_decoding(data, n) matches Ok((v, c)) ==> 1 <= c <= data.len() && v <= u64::MAX,
{
    if data.len() > 0 {
        lemma_continuation_bounds(data, 1, 0);
        lemma_continuation_value(data, 1, 0);
        assert(pow128(0) == 1);
        assert(pow128(9) == 0x8000_0000_0000_0000) by {
            reveal_with_fuel(pow128, 10);
        }
        assert(prefix_max(n) <= 255);
    }
}

/// Copies `bytes` to the start of `buf` where they fit.
pub fn write_all(buf: &mut [u8], bytes: &[u8]) -> (r: Option<usize>)
    ensures
        bytes@.len() <= old(buf)@.len() ==> r == Some(bytes@.len() as usize) && final(buf)@ == bytes@
            + old(buf)@.skip(bytes@.len() as int),
        bytes@.len() > old(buf)@.len() ==> r is None && final(buf)@ == old(buf)@,
{
    if bytes.len() > buf.len() {
        return None;
    }
    let ghost orig = buf@;
    let mut i: usize = 0;
    while i < bytes.len()
        invariant
            i <= bytes.len() <= buf.len(),
            buf@.len() == orig.len(),
            forall|j: int| 0 <= j < i ==> buf@[j] == bytes@[j],
            forall|j: int| i <= j < buf@.len() ==> buf@[j] == orig[j],
        decreases bytes.len() - i,
    {
        buf[i] = bytes[i];
        i = i + 1;
    }
    assert(buf@ =~= bytes@ + orig.skip(bytes@.len() as int));
    Some(bytes.len())
}

/// Appends a string literal with an `prefix_bits`-bit length prefix.
pub fn push_string_with_prefix(out: &mut Vec<u8>, data: &[u8], prefix_bits: u8, prefix: u8, use_huffman: bool)
    requires
        1 <= prefix_bits <= 7,
    ensures
        final(out)@ == old(out)@ + string_repr(data@, prefix_bits as nat, prefix, (1u8 << prefix_bits), use_huffman),
{
    if use_huffman {
        let h = encode_to_vec(data);
        if h.len() < data.len() {
            let h_bit = 1u8 << prefix_bits;
            encode_integer_to_vec(out, h.len() as u64, prefix_bits, prefix | h_bit);
            append_bytes(out, h.as_slice());
            proof {
                assert(final(out)@ =~= old(out)@ + string_repr(data@, prefix_bits as nat, prefix, (1u8 << prefix_bits), use_huffman));
            }
            return;
        }
    }
    encode_integer_to_vec(out, data.len() as u64, prefix_bits, prefix);
    append_bytes(out, data);
    proof {
        assert(final(out)@ =~= old(out)@ + string_repr(data@, prefix_bits as nat, prefix, (1u8 << prefix_bits), use_huffman));
    }
}

/// Writes a string literal with an `prefix_bits`-bit length prefix at the
/// start of `buf`; `None`, with `buf` untouched, where it does not fit.
pub fn encode_string_with_prefix(buf: &mut [u8], data: &[u8], prefix_bits: u8, prefix: u8, use_huffman: bool) -> (r: Option<usize>)
    requires
        1 <= prefix_bits <= 7,
    ensures
        ({
            let s = string_repr(data@, prefix_bits as nat, prefix, (1u8 << prefix_bits), use_huffman);
            &&& s.len() <= old(buf)@.len() ==> r == Some(s.len() as usize) && final(buf)@ == s + old(buf)@.skip(s.len() as int)
            &&& s.len() > old(buf)@.len() ==> r is None && final(buf)@ == old(buf)@
        }),
{
    let mut v: Vec<u8> = Vec::new();
    push_string_with_prefix(&mut v, data, prefix_bits, prefix, use_huffman);
    assert(v@ =~= string_repr(data@, prefix_bits as nat, prefix, (1u8 << prefix_bits), use_huffman));
    write_all(buf, v.as_slice())
}

/// Writes a string literal with a 7-bit length prefix (a field value) at
/// the start of `buf`; `None`, with `buf` untouched, where it does not fit.
pub fn encode_string(buf: &mut [u8], data: &[u8], use_huffman: bool) -> (r: Option<usize>)
    ensures
        ({
            let s = string_repr(data@, 7, 0, 0x80, use_huffman);
            &&& s.len() <= old(buf)@.len() ==> r == Some(s.len() as usize) && final(buf)@ == s + old(buf)@.skip(s.len() as int)
            &&& s.len() > old(buf)@.len() ==> r is None && final(buf)@ == old(buf)@
        }),
{
    assert((1u8 << 7u8) == 0x80u8) by (bit_vector);
    encode_string_with_prefix(buf, data, 7, 0, use_huffman)
}

/// Reads a string literal with a 7-bit length prefix.
pub fn decode_string(data: &[u8]) -> (r: Result<(Vec<u8>, usize), QpackError>)
    ensures
        match string_decoding(data@) {
            Ok((s, n)) => r matches Ok((v, m)) && v@ == s && m == n,
            Err(e) => r == Err::<(Vec<u8>, usize), QpackError>(e),
        },
{
    if data.len() == 0 {
        return Err(QpackError::BufferTooShort);
    }
    let is_huffman = (data[0] & 0x80) != 0;
    let (length, prefix_len) = match decode_integer(data, 7) {
        Ok(x) => x,
        Err(e) => return Err(e),
    };
    proof {
        lemma_prefix_int_bounds(data@, 7);
    }
    let rest = &data[prefix_len..data.len()];
    assert(rest@ =~= data@.skip(prefix_len as int));
    if length > rest.len() as u64 {
        return Err(QpackError::BufferTooShort);
    }
    match decode_string_with_len(rest, length as usize, is_huffman) {
        Ok((s, n)) => Ok((s, prefix_len + n)),
        Err(e) => Err(e),
    }
}

/// Reads the `length` bytes of a string literal, Huffman-coded or not.
pub fn decode_string_with_len(data: &[u8], length: usize, is_huffman: bool) -> (r: Result<(Vec<u8>, usize), QpackError>)
    ensures
        match string_bytes_decoding(data@, length as nat, is_huffman) {
            Ok((s, n)) => r matches Ok((v, m)) && v@ == s && m == n,
            Err(e) => r == Err::<(Vec<u8>, usize), QpackError>(e),
        },
{
    if data.len() < length {
        return Err(QpackError::BufferTooShort);
    }
    let encoded = &data[0..length];
    assert(encoded@ =~= data@.take(length as int));
    if is_huffman {
        match decode(encoded) {
            Ok(s) => Ok((s, length)),
            Err(e) => Err(e),
        }
    } else {
        let mut v: Vec<u8> = Vec::new();
        append_bytes(&mut v, encoded);
        assert(v@ =~= encoded@);
        Ok((v, length))
    }
}

/// A string literal with an `n`-bit length prefix whose `H` flag is
/// `hbit`, at the start of `data`: its bytes and the literal's length.
pub open spec fn string_decoding_with(data: Seq<u8>, n: nat, hbit: u8) -> Result<(Seq<u8>, nat), QpackError> {
    if data.len() == 0 {
        Err(QpackError::BufferTooShort)
    } else {
        match prefix_int_decoding(data, n) {
            Err(e) => Err(e),
            Ok((length, p)) => match string_bytes_decoding(data.skip(p as int), length, data[0] & hbit != 0) {
                Ok((s, m)) => Ok((s, p + m)),
                Err(e) => Err(e),
            },
        }
    }
}

/// Reads a string literal with a `prefix_bits`-bit length prefix, the `H`
/// flag just above it.
pub fn decode_string_with_prefix(data: &[u8], prefix_bits: u8) -> (r: Result<(Vec<u8>, usize), QpackError>)
    requires
        1 <= prefix_bits <= 7,
    ensures
        match string_decoding_with(data@, prefix_bits as nat, (1u8 << prefix_bits)) {
            Ok((s, n)) => r matches Ok((v, m)) && v@ == s && m == n,
            Err(e) => r == Err::<(Vec<u8>, usize), QpackError>(e),
        },
{
    if data.len() == 0 {
        return Err(QpackError::BufferTooShort);
    }
    let h_bit = 1u8 << prefix_bits;
    let is_huffman = (data[0] & h_bit) != 0;
    let (length, prefix_len) = match decode_integer(data, prefix_bits) {
        Ok(x) => x,
        Err(e) => return Err(e),
    };
    proof {
        lemma_prefix_int_bounds(data@, prefix_bits as nat);
    }
    let rest = &data[prefix_len..data.len()];
    assert(rest@ =~= data@.skip(prefix_len as int));
    if length > rest.len() as u64 {
        return Err(QpackError::BufferTooShort);
    }
    match decode_string_with_len(rest, length as usize, is_huffman) {
        Ok((s, n)) => Ok((s, prefix_len + n)),
        Err(e) => Err(e),
    }
}

} // verus!
