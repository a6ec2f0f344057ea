//! Prefixed integers (RFC 7541 Section 5.1, used unchanged by RFC 9204 Section 4.1.1).
//!
//! An integer starts in the low `N` bits of a first byte; a value that does
//! not fit continues in 7-bit groups, least significant first, each byte but
//! the last with its top bit set. Decoding accepts up to 62-bit values
//! (continuation groups up to a shift of 56).

use vstd::prelude::*;
use crate::error::QpackError;

verus! {

/// `2^n - 1`: the largest value the `n`-bit prefix holds directly.
pub open spec fn prefix_max(n: nat) -> nat {
    if n == 1 {
        1
    } else if n == 2 {
        3
    } else if n == 3 {
        7
    } else if n == 4 {
        15
    } else if n == 5 {
        31
    } else if n == 6 {
        63
    } else if n == 7 {
        127
    } else {
        255
    }
}

/// The continuation bytes that carry `r`, 7 bits at a time, least significant first.
pub open spec fn continuation_bytes(r: nat) -> Seq<u8>
    decreases r,
{
    if r < 128 {
        seq![r as u8]
    } else {
        seq![(0x80 + r % 128) as u8] + continuation_bytes(r / 128)
    }
}

/// The prefixed-integer encoding of `value` with an `n`-bit prefix, the first
/// byte's other bits taken from `prefix`.
pub open spec fn prefix_int_encoding(value: nat, n: nat, prefix: u8) -> Seq<u8> {
    let m = prefix_max(n);
    if value < m {
        seq![prefix | (value as u8)]
    } else {
        seq![prefix | (m as u8)] + continuation_bytes((value - m) as nat)
    }
}

/// Reading continuation bytes from `off`, the `k`-th group (shift `7k`):
/// the sum of the groups read and the offset after the last one.
pub open spec fn continuation_decoding(data: Seq<u8>, off: nat, k: nat) -> Result<
    (nat, nat),
    QpackError,
>
    decreases 9 - k,
{
    if off >= data.len() {
        Err(QpackError::BufferTooShort)
    } else {
        let b = data[off as int];
        let add = (b % 128) as nat * pow128(k);
        if b < 128 {
            Ok((add, off + 1))
        } else if k >= 8 {
            Err(QpackError::DecodeFailed)
        } else {
            match continuation_decoding(data, off + 1, k + 1) {
                Ok((s, e)) => Ok((add + s, e)),
                Err(e) => Err(e),
            }
        }
    }
}

/// `128^k`.
pub open spec fn pow128(k: nat) -> nat
    decreases k,
{
    if k == 0 {
        1
    } else {
        128 * pow128((k - 1) as nat)
    }
}

/// Decoding of a prefixed integer at the front of `data`: the value and the
/// number of bytes it takes, or the error.
pub open spec fn prefix_int_decoding(data: Seq<u8>, n: nat) -> Result<(nat, nat), QpackError> {
    if data.len() == 0 {
        Err(QpackError::BufferTooShort)
    } else {
        let m = prefix_max(n);
        let p = data[0] as nat % (m + 1);
        if p < m {
            Ok((p, 1))
        } else {
            match continuation_decoding(data, 1, 0) {
                Ok((s, e)) => Ok((p + s, e)),
                Err(e) => Err(e),
            }
        }
    }
}

/// The mask of the low `prefix_bits` bits.
fn prefix_mask(prefix_bits: u8) -> (r: u8)
    requires
        1 <= prefix_bits <= 8,
    ensures
        r as nat == prefix_max(prefix_bits as nat),
{
    match prefix_bits {
        1 => 1,
        2 => 3,
        3 => 7,
        4 => 15,
        5 => 31,
        6 => 63,
        7 => 127,
        _ => 255,
    }
}

proof fn lemma_mask_mod(b: u8, m: u8)
    requires
        m == 1 || m == 3 || m == 7 || m == 15 || m == 31 || m == 63 || m == 127 || m == 255,
    ensures
        (b & m) as nat == b as nat % (m as nat + 1),
{
    if m == 255 {
        assert(b & 255 == b) by (bit_vector);
        assert(b as nat % 256 == b as nat);
    } else if m == 127 {
        assert(b & 127 == b % 128) by (bit_vector);
    } else if m == 63 {
        assert(b & 63 == b % 64) by (bit_vector);
    } else if m == 31 {
        assert(b & 31 == b % 32) by (bit_vector);
    } else if m == 15 {
        assert(b & 15 == b % 16) by (bit_vector);
    } else if m == 7 {
        assert(b & 7 == b % 8) by (bit_vector);
    } else if m == 3 {
        assert(b & 3 == b % 4) by (bit_vector);
    } else {
        assert(b & 1 == b % 2) by (bit_vector);
    }
}

/// Appends the prefixed-integer encoding of `value` to `buf`.
pub fn encode_integer_to_vec(buf: &mut Vec<u8>, value: u64, prefix_bits: u8, prefix: u8)
    requires
        1 <= prefix_bits <= 8,
    ensures
        final(buf)@ == old(buf)@ + prefix_int_encoding(value as nat, prefix_bits as nat, prefix),
{
    let max_prefix = prefix_mask(prefix_bits) as u64;
    if value < max_prefix {
        buf.push(prefix | (value as u8));
    } else {
        buf.push(prefix | (max_prefix as u8));
        let ghost start = buf@;
        let mut remaining = value - max_prefix;
        while remaining >= 128
            invariant
                buf@.len() >= start.len(),
                start + buf@.skip(start.len() as int) == buf@,
                buf@.skip(start.len() as int) + continuation_bytes(remaining as nat)
                    == continuation_bytes((value - max_prefix) as nat),
            decreases remaining,
        {
            let low = remaining & 0x7f;
            assert(remaining & 0x7f == remaining % 128) by (bit_vector);
            let byte = 0x80 | (low as u8);
            assert(low < 128 ==> 0x80 | (low as u8) == 0x80 + low) by (bit_vector);
            let ghost before = buf@;
            buf.push(byte);
            assert(buf@.skip(start.len() as int) =~= before.skip(start.len() as int).push(byte));
            assert(remaining >> 7 == remaining / 128) by (bit_vector);
            let ghost r0 = remaining;
            remaining = remaining >> 7;
            assert(continuation_bytes(r0 as nat) == seq![byte] + continuation_bytes(
                remaining as nat,
            ));
            assert(before.skip(start.len() as int).push(byte) + continuation_bytes(
                remaining as nat,
            ) =~= before.skip(start.len() as int) + (seq![byte] + continuation_bytes(
                remaining as nat,
            )));
        }
        let ghost before = buf@;
        buf.push(remaining as u8);
        assert(buf@.skip(start.len() as int) =~= before.skip(start.len() as int).push(
            remaining as u8,
        ));
        assert(continuation_bytes(remaining as nat) == seq![remaining as u8]);
        assert(buf@ =~= start + continuation_bytes((value - max_prefix) as nat));
    }
}

/// Writes the prefixed-integer encoding of `value` at the front of `buf`;
/// returns its length, or `None` when `buf` is shorter than the encoding
/// (then `buf` holds as much of the encoding as fits).
pub fn encode_integer(buf: &mut [u8], value: u64, prefix_bits: u8, prefix: u8) -> (r: Option<
    usize,
>)
    requires
        1 <= prefix_bits <= 8,
    ensures
        ({
            let enc = prefix_int_encoding(value as nat, prefix_bits as nat, prefix);
            &&& enc.len() <= old(buf)@.len() ==> r == Some(enc.len() as usize) && final(buf)@
                == enc + old(buf)@.skip(enc.len() as int)
            &&& enc.len() > old(buf)@.len() ==> r is None && final(buf)@ == enc.take(
                old(buf)@.len() as int,
            )
        }),
{
    let mut enc: Vec<u8> = Vec::new();
    encode_integer_to_vec(&mut enc, value, prefix_bits, prefix);
    assert(enc@ =~= prefix_int_encoding(value as nat, prefix_bits as nat, prefix));
    let n = if enc.len() <= buf.len() {
        enc.len()
    } else {
        buf.len()
    };
    let ghost start = buf@;
    let mut i: usize = 0;
    while i < n
        invariant
            i <= n,
            n <= enc@.len(),
            n <= buf@.len(),
            buf@.len() == start.len(),
            forall|j: int| 0 <= j < i ==> buf@[j] == enc@[j],
            forall|j: int| i <= j < buf@.len() ==> buf@[j] == start[j],
        decreases n - i,
    {
        buf[i] = enc[i];
        i = i + 1;
    }
    if enc.len() <= buf.len() {
        assert(buf@ =~= enc@ + start.skip(enc.len() as int));
        Some(enc.len())
    } else {
        assert(buf@ =~= enc@.take(start.len() as int));
        None
    }
}

/// Reads a prefixed integer with an `prefix_bits`-bit prefix from the front of
/// `data`; returns the value and the number of bytes it takes.
pub fn decode_integer(data: &[u8], prefix_bits: u8) -> (r: Result<(u64, usize), QpackError>)
    requires
        1 <= prefix_bits <= 8,
    ensures
        match prefix_int_decoding(data@, prefix_bits as nat) {
            Ok((v, n)) => r == Ok::<(u64, usize), QpackError>((v as u64, n as usize)),
            Err(e) => r == Err::<(u64, usize), QpackError>(e),
        },
{
    if data.len() == 0 {
        return Err(QpackError::BufferTooShort);
    }
    let mask = prefix_mask(prefix_bits);
    let prefix_value = data[0] & mask;
    proof {
        lemma_mask_mod(data[0], mask);
    }
    if prefix_value < mask {
        return Ok((prefix_value as u64, 1));
    }
    let mut value: u64 = prefix_value as u64;
    let mut mult: u64 = 1;
    let mut k: usize = 0;
    let mut offset: usize = 1;
    let ghost p = prefix_value as nat;
    loop
        invariant
            offset == k + 1,
            k <= 8,
            mult as nat == pow128(k as nat),
            p <= 255,
            value as nat >= p,
            value as nat - p < pow128(k as nat),
            p == prefix_max(prefix_bits as nat),
            prefix_int_decoding(data@, prefix_bits as nat) == match continuation_decoding(
                data@,
                offset as nat,
                k as nat,
            ) {
                Ok((s, e)) => Ok::<(nat, nat), QpackError>((value as nat + s, e)),
                Err(e) => Err::<(nat, nat), QpackError>(e),
            },
        decreases 9 - k,
    {
        proof {
            lemma_pow128_bound(k as nat);
        }
        if offset >= data.len() {
            return Err(QpackError::BufferTooShort);
        }
        let byte = data[offset];
        let low = (byte & 0x7f) as u64;
        assert(byte & 0x7f == byte % 128) by (bit_vector);
        proof {
            assert(low * mult <= 127 * pow128(k as nat)) by (nonlinear_arith)
                requires
                    low <= 127,
                    mult as nat == pow128(k as nat),
            ;
        }
        value = value + low * mult;
        offset = offset + 1;
        if byte & 0x80 == 0 {
            assert(byte & 0x80 == 0 ==> byte < 128) by (bit_vector);
            return Ok((value, offset));
        }
        assert(byte & 0x80 != 0 ==> byte >= 128) by (bit_vector);
        if k >= 8 {
            return Err(QpackError::DecodeFailed);
        }
        mult = mult * 128;
        k = k + 1;
    }
}

proof fn lemma_pow128_bound(k: nat)
    requires
        k <= 8,
    ensures
        pow128(k) <= 0x100_0000_0000_0000,
        pow128(k) >= 1,
        128 * pow128(k) <= 0x8000_0000_0000_0000,
{
    reveal_with_fuel(pow128, 9);
}

proof fn lemma_continuation_len(r: nat)
    ensures
        continuation_bytes(r).len() >= 1,
    decreases r,
{
    if r >= 128 {
        lemma_continuation_len(r / 128);
    }
}

proof fn lemma_continuation_roundtrip(r: nat, k: nat, data: Seq<u8>, off: nat)
    requires
        k <= 8,
        r < pow128((9 - k) as nat),
        off + continuation_bytes(r).len() <= data.len(),
        data.subrange(off as int, (off + continuation_bytes(r).len()) as int) == continuation_bytes(r),
    ensures
        continuation_decoding(data, off, k) == Ok::<(nat, nat), QpackError>(
            (r * pow128(k), off + continuation_bytes(r).len()),
        ),
    decreases r,
{
    let cb = continuation_bytes(r);
    lemma_continuation_len(r);
    assert(data[off as int] == cb[0]);
    if r >= 128 {
        let tail = continuation_bytes(r / 128);
        lemma_continuation_len(r / 128);
        assert(cb == seq![(0x80 + r % 128) as u8] + tail);
        if k >= 8 {
            assert(pow128(1) == 128) by {
                reveal_with_fuel(pow128, 2);
            }
            assert(false);
        }
        assert(pow128((9 - k) as nat) == 128 * pow128((9 - (k + 1)) as nat));
        assert(r / 128 < pow128((9 - (k + 1)) as nat));
        assert(data.subrange((off + 1) as int, (off + 1 + tail.len()) as int) =~= tail) by {
            assert forall|j: int| 0 <= j < tail.len() implies data.subrange(
                (off + 1) as int,
                (off + 1 + tail.len()) as int,
            )[j] == tail[j] by {
                assert(data[(off + 1 + j) as int] == data.subrange(off as int, (off + cb.len()) as int)[1 + j]);
            }
        }
        lemma_continuation_roundtrip(r / 128, k + 1, data, off + 1);
        let b = data[off as int];
        assert(b % 128 == r % 128);
        assert(pow128(k + 1) == 128 * pow128(k));
        assert((r % 128) * pow128(k) + (r / 128) * (128 * pow128(k)) == r * pow128(k))
            by (nonlinear_arith)
            requires
                r == 128 * (r / 128) + r % 128,
        ;
    } else {
        assert(cb == seq![r as u8]);
    }
}

/// Decoding an encoded prefixed integer gives back the value and the length,
/// whatever follows, when the prefix bits of `prefix` are clear and the
/// value fits in the nine continuation groups that decoding accepts.
pub proof fn lemma_prefix_int_roundtrip(value: nat, n: nat, prefix: u8, rest: Seq<u8>)
    requires
        1 <= n <= 8,
        prefix as nat % (prefix_max(n) + 1) == 0,
        value < prefix_max(n) + pow128(9),
    ensures
        prefix_int_decoding(prefix_int_encoding(value, n, prefix) + rest, n) == Ok::<
            (nat, nat),
            QpackError,
        >((value, prefix_int_encoding(value, n, prefix).len())),
{
    let m = prefix_max(n);
    let enc = prefix_int_encoding(value, n, prefix);
    let data = enc + rest;
    let mu = m as u8;
    lemma_mask_mod(prefix, mu);
    let x: u8 = if value < m { value as u8 } else { mu };
    assert(data[0] == prefix | x);
    assert((prefix & mu) == 0 && x <= mu && (mu == 1 || mu == 3 || mu == 7 || mu == 15 || mu
        == 31 || mu == 63 || mu == 127 || mu == 255) ==> (prefix | x) & mu == x) by (bit_vector);
    lemma_mask_mod(prefix | x, mu);
    if value >= m {
        let r = (value - m) as nat;
        let cb = continuation_bytes(r);
        assert(enc == seq![prefix | mu] + cb);
        assert(data.subrange(1, (1 + cb.len()) as int) =~= cb);
        assert(pow128(9) == pow128((9 - 0) as nat));
        lemma_continuation_roundtrip(r, 0, data, 1);
        assert(pow128(0) == 1);
    }
}

/// The short forms of a prefixed integer (RFC 7541 Section 5.1), read
/// with an `n`-bit prefix, `2^n - 1` being all prefix bits set: low bits
/// below that are the value itself, in one byte; all set and then a byte
/// below 128 give `2^n - 1` plus that byte, in two; all set, a byte of 128
/// or more and then one below 128 give `2^n - 1` plus the first byte's low
/// seven bits plus 128 times the second, in three.
pub proof fn lemma_prefix_int_short_forms(data: Seq<u8>, n: nat)
    requires
        1 <= n <= 8,
        data.len() >= 1,
    ensures
        ({
            let full = pow2_prefix(n);
            let low = data[0] as nat % (full + 1);
            &&& low < full ==> prefix_int_decoding(data, n) == Ok::<(nat, nat), QpackError>((low, 1))
            &&& low == full && data.len() >= 2 && data[1] < 128 ==> prefix_int_decoding(data, n) == Ok::<
                (nat, nat),
                QpackError,
            >(((full + data[1]) as nat, 2))
            &&& low == full && data.len() >= 3 && data[1] >= 128 && data[2] < 128 ==> prefix_int_decoding(data, n)
                == Ok::<(nat, nat), QpackError>(((full + (data[1] - 128) + 128 * data[2]) as nat, 3))
        }),
{
    assert(pow2_prefix(n) == prefix_max(n)) by {
        reveal_with_fuel(pow2_prefix, 9);
    }
    assert(pow128(0) == 1);
    assert(pow128(1) == 128) by {
        reveal_with_fuel(pow128, 2);
    }
    if data.len() >= 2 && data[1] < 128 {
        assert(continuation_decoding(data, 1, 0) == Ok::<(nat, nat), QpackError>((data[1] as nat, 2)));
    }
    if data.len() >= 3 && data[1] >= 128 && data[2] < 128 {
        assert(continuation_decoding(data, 2, 1) == Ok::<(nat, nat), QpackError>(((data[2] * 128) as nat, 3)));
        assert(continuation_decoding(data, 1, 0) == Ok::<(nat, nat), QpackError>(
            (((data[1] - 128) + data[2] * 128) as nat, 3),
        ));
    }
}

/// `2^n - 1`, the largest value an `n`-bit prefix holds.
pub open spec fn pow2_prefix(n: nat) -> nat
    decreases n,
{
    if n == 0 {
        0
    } else {
        2 * pow2_prefix((n - 1) as nat) + 1
    }
}

} // verus!
