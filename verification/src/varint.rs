//! QUIC variable-length integers (RFC 9000 Section 16).
//!
//! A variable-length integer takes 1, 2, 4 or 8 bytes and holds a value in
//! `0..=2^62 - 1`. The two most significant bits of the first byte give the
//! length. [`VarInt`] carries that range in its type.

use vstd::prelude::*;
use crate::text::{decimal_chars, push_str, push_radix, string_from_chars};
use crate::bytes_be::{
    be_bytes, be_decode, be_encode, be_value, lemma_be_bytes_first, lemma_be_bytes_len,
    lemma_be_value_of_bytes, pow256,
};

verus! {

/// The largest value a variable-length integer can hold (`2^62 - 1`).
pub const VARINT_MAX_VALUE: u64 = 0x3fff_ffff_ffff_ffff;

/// A QUIC variable-length integer: a value in `0..=2^62 - 1`.
#[derive(Debug, Clone, Copy, PartialEq, Eq, Structural, PartialOrd, Ord, Hash)]
pub struct VarInt(u64);

/// Why a value cannot become a [`VarInt`].
#[non_exhaustive]
#[derive(Debug, Clone, Copy, PartialEq, Eq, Structural)]
pub enum VarIntError {
    /// The value exceeds `2^62 - 1`.
    OutOfRange {
        /// The rejected value.
        value: u64,
    },
}

/// Decoding ran out of input.
#[non_exhaustive]
#[derive(Debug, Clone, Copy, PartialEq, Eq, Structural)]
pub enum DecodeError {
    /// The buffer is shorter than the encoding.
    BufferTooShort,
}

/// The output buffer cannot hold the encoding.
#[non_exhaustive]
#[derive(Debug, Clone, Copy, PartialEq, Eq, Structural)]
pub enum EncodeError {
    /// The buffer is shorter than the encoding.
    BufferTooShort,
}

impl View for VarInt {
    type V = u64;

    closed spec fn view(&self) -> u64 {
        self.0
    }
}

/// The number of bytes that encode `v` (RFC 9000 Section 16, Table 4).
pub open spec fn varint_len(v: u64) -> nat {
    if v < 64 {
        1
    } else if v < 16384 {
        2
    } else if v < 1_073_741_824 {
        4
    } else {
        8
    }
}

/// The length code carried by the two top bits of the first byte, for a length.
pub open spec fn varint_len_code(n: nat) -> nat {
    if n == 1 {
        0
    } else if n == 2 {
        1
    } else if n == 4 {
        2
    } else {
        3
    }
}

/// The number of value bits in an `n`-byte encoding, as a modulus (`2^(8n - 2)`).
pub open spec fn varint_value_range(n: nat) -> nat {
    if n == 1 {
        0x40
    } else if n == 2 {
        0x4000
    } else if n == 4 {
        0x4000_0000
    } else {
        0x4000_0000_0000_0000
    }
}

/// The encoding of `v`: its value with the length code in the top two bits,
/// big-endian, on `varint_len(v)` bytes.
pub open spec fn varint_encoding(v: u64) -> Seq<u8> {
    let n = varint_len(v);
    be_bytes((v + varint_len_code(n) * varint_value_range(n)) as nat, n)
}

/// The encoded length announced by a first byte.
pub open spec fn varint_len_of_first(b: u8) -> nat {
    if b < 0x40 {
        1
    } else if b < 0x80 {
        2
    } else if b < 0xc0 {
        4
    } else {
        8
    }
}

/// Decoding of the front of `buf`: `None` when the buffer is too short,
/// otherwise the value and the number of bytes it takes.
pub open spec fn varint_decoding(buf: Seq<u8>) -> Option<(u64, nat)> {
    if buf.len() == 0 {
        None
    } else {
        let n = varint_len_of_first(buf[0]);
        if buf.len() < n {
            None
        } else {
            Some(((be_value(buf.take(n as int)) % varint_value_range(n)) as u64, n))
        }
    }
}

impl VarInt {
    #[verifier::type_invariant]
    spec fn inv(self) -> bool {
        self.0 <= VARINT_MAX_VALUE
    }

    /// The largest variable-length integer (`2^62 - 1`).
    #[allow(non_snake_case)]
    pub fn MAX() -> (r: VarInt)
        ensures
            r@ == VARINT_MAX_VALUE,
    {
        VarInt(VARINT_MAX_VALUE)
    }

    /// Zero.
    #[allow(non_snake_case)]
    pub fn ZERO() -> (r: VarInt)
        ensures
            r@ == 0,
            r == Self::zero_spec(),
    {
        VarInt(0)
    }

    /// The variable-length integer of an in-range value, as a spec value.
    pub closed spec fn spec_new(v: u64) -> VarInt {
        VarInt(v)
    }

    /// An in-range value becomes the variable-length integer holding it.
    pub proof fn lemma_spec_new(v: u64)
        requires
            v <= VARINT_MAX_VALUE,
        ensures
            Self::spec_new(v)@ == v,
    {
    }

    /// Zero, as a spec value.
    pub closed spec fn zero_spec() -> VarInt {
        VarInt(0)
    }

    /// Zero holds 0.
    pub proof fn lemma_zero_spec()
        ensures
            Self::zero_spec()@ == 0,
    {
    }

    /// Two variable-length integers with the same value are the same.
    pub proof fn lemma_view_injective(a: VarInt, b: VarInt)
        ensures
            a@ == b@ ==> a == b,
    {
    }

    /// Checked construction from a runtime value.
    pub fn new(value: u64) -> (r: Result<VarInt, VarIntError>)
        ensures
            value <= VARINT_MAX_VALUE ==> (r matches Ok(v) && v@ == value && v == Self::spec_new(
                value,
            )),
            value > VARINT_MAX_VALUE ==> r == Err::<VarInt, VarIntError>(
                VarIntError::OutOfRange { value },
            ),
    {
        if value > VARINT_MAX_VALUE {
            Err(VarIntError::OutOfRange { value })
        } else {
            Ok(VarInt(value))
        }
    }

    /// Construction from a value known to be in range.
    pub fn from_static(value: u64) -> (r: VarInt)
        requires
            value <= VARINT_MAX_VALUE,
        ensures
            r@ == value,
            r == Self::spec_new(value),
    {
        VarInt(value)
    }

    /// The value.
    pub fn get(self) -> (r: u64)
        ensures
            r == self@,
            r <= VARINT_MAX_VALUE,
    {
        proof {
            use_type_invariant(&self);
        }
        self.0
    }

    /// The number of bytes of the wire encoding: 1, 2, 4 or 8.
    pub fn encoded_len(self) -> (r: usize)
        ensures
            r as nat == varint_len(self@),
    {
        if self.0 < 64 {
            1
        } else if self.0 < 16_384 {
            2
        } else if self.0 < 1_073_741_824 {
            4
        } else {
            8
        }
    }
}

impl From<u8> for VarInt {
    fn from(value: u8) -> (r: VarInt) {
        VarInt(value as u64)
    }
}

impl vstd::std_specs::convert::FromSpecImpl<u8> for VarInt {
    open spec fn obeys_from_spec() -> bool {
        true
    }

    closed spec fn from_spec(v: u8) -> VarInt {
        VarInt(v as u64)
    }
}

impl From<u16> for VarInt {
    fn from(value: u16) -> (r: VarInt) {
        VarInt(value as u64)
    }
}

impl vstd::std_specs::convert::FromSpecImpl<u16> for VarInt {
    open spec fn obeys_from_spec() -> bool {
        true
    }

    closed spec fn from_spec(v: u16) -> VarInt {
        VarInt(v as u64)
    }
}

impl From<u32> for VarInt {
    fn from(value: u32) -> (r: VarInt) {
        VarInt(value as u64)
    }
}

impl vstd::std_specs::convert::FromSpecImpl<u32> for VarInt {
    open spec fn obeys_from_spec() -> bool {
        true
    }

    closed spec fn from_spec(v: u32) -> VarInt {
        VarInt(v as u64)
    }
}

impl TryFrom<u64> for VarInt {
    type Error = VarIntError;

    fn try_from(value: u64) -> (r: Result<VarInt, VarIntError>) {
        VarInt::new(value as u64)
    }
}

impl vstd::std_specs::convert::TryFromSpecImpl<u64> for VarInt {
    open spec fn obeys_try_from_spec() -> bool {
        true
    }

    closed spec fn try_from_spec(v: u64) -> Result<VarInt, VarIntError> {
        if v as u64 > VARINT_MAX_VALUE {
            Err(VarIntError::OutOfRange { value: v as u64 })
        } else {
            Ok(VarInt(v as u64))
        }
    }
}

impl TryFrom<usize> for VarInt {
    type Error = VarIntError;

    fn try_from(value: usize) -> (r: Result<VarInt, VarIntError>) {
        VarInt::new(value as u64)
    }
}

impl vstd::std_specs::convert::TryFromSpecImpl<usize> for VarInt {
    open spec fn obeys_try_from_spec() -> bool {
        true
    }

    closed spec fn try_from_spec(v: usize) -> Result<VarInt, VarIntError> {
        if v as u64 > VARINT_MAX_VALUE {
            Err(VarIntError::OutOfRange { value: v as u64 })
        } else {
            Ok(VarInt(v as u64))
        }
    }
}

/// The length code and value of `v` packed into one word.
fn tagged(v: VarInt) -> (r: (u64, usize))
    ensures
        r.1 as nat == varint_len(v@),
        r.0 as nat == v@ + varint_len_code(r.1 as nat) * varint_value_range(r.1 as nat),
{
    let raw = v.get();
    let len = v.encoded_len();
    let x = if len == 1 {
        raw
    } else if len == 2 {
        raw + 0x4000
    } else if len == 4 {
        raw + 0x8000_0000
    } else {
        raw + 0xc000_0000_0000_0000
    };
    (x, len)
}

/// Appends the encoding of `value` to `buf`.
pub fn encode_into_vec(buf: &mut Vec<u8>, value: VarInt)
    ensures
        final(buf)@ == old(buf)@ + varint_encoding(value@),
{
    let (x, len) = tagged(value);
    let bytes = be_encode(x, len);
    let ghost start = buf@;
    let mut i: usize = 0;
    while i < bytes.len()
        invariant
            i <= bytes.len(),
            buf@ == start + bytes@.take(i as int),
        decreases bytes.len() - i,
    {
        buf.push(bytes[i]);
        assert(bytes@.take(i + 1) =~= bytes@.take(i as int).push(bytes@[i as int]));
        i = i + 1;
    }
    assert(bytes@.take(bytes.len() as int) =~= bytes@);
}

/// Appends the encoding of a value that is known to be in range.
pub(crate) fn push_varint(out: &mut Vec<u8>, v: u64)
    requires
        v <= VARINT_MAX_VALUE,
    ensures
        final(out)@ == old(out)@ + varint_encoding(v),
{
    encode_into_vec(out, VarInt::from_static(v));
}

/// Writes the encoding of `value` at the front of `buf`; returns its length.
pub fn encode(buf: &mut [u8], value: VarInt) -> (r: Result<usize, EncodeError>)
    ensures
        old(buf)@.len() < varint_len(value@) ==> r == Err::<usize, EncodeError>(
            EncodeError::BufferTooShort,
        ) && final(buf)@ == old(buf)@,
        old(buf)@.len() >= varint_len(value@) ==> r == Ok::<usize, EncodeError>(
            varint_len(value@) as usize,
        ) && final(buf)@ == varint_encoding(value@) + old(buf)@.skip(
            varint_len(value@) as int,
        ),
{
    let (x, len) = tagged(value);
    if buf.len() < len {
        return Err(EncodeError::BufferTooShort);
    }
    let bytes = be_encode(x, len);
    proof {
        lemma_be_bytes_len(x as nat, len as nat);
    }
    let ghost start = buf@;
    let mut i: usize = 0;
    while i < len
        invariant
            i <= len,
            len == bytes@.len(),
            len <= buf@.len(),
            buf@.len() == start.len(),
            forall|j: int| 0 <= j < i ==> buf@[j] == bytes@[j],
            forall|j: int| i <= j < buf@.len() ==> buf@[j] == start[j],
        decreases len - i,
    {
        buf[i] = bytes[i];
        i = i + 1;
    }
    assert(buf@ =~= bytes@ + start.skip(len as int));
    Ok(len)
}

/// Reads a variable-length integer from the front of `buf`; returns it and
/// the number of bytes it took.
pub fn decode(buf: &[u8]) -> (r: Result<(VarInt, usize), DecodeError>)
    ensures
        match varint_decoding(buf@) {
            None => r == Err::<(VarInt, usize), DecodeError>(DecodeError::BufferTooShort),
            Some((v, n)) => r matches Ok((x, m)) && x@ == v && m as nat == n,
        },
{
    if buf.len() == 0 {
        return Err(DecodeError::BufferTooShort);
    }
    let first = buf[0];
    let len: usize = if first < 0x40 {
        1
    } else if first < 0x80 {
        2
    } else if first < 0xc0 {
        4
    } else {
        8
    };
    if buf.len() < len {
        return Err(DecodeError::BufferTooShort);
    }
    let acc = be_decode(buf, len);
    let value = if len == 1 {
        acc % 0x40
    } else if len == 2 {
        acc % 0x4000
    } else if len == 4 {
        acc % 0x4000_0000
    } else {
        acc % 0x4000_0000_0000_0000
    };
    Ok((VarInt(value), len))
}

/// The encoded length announced by the first byte of `buf`, if any.
pub fn peek_len(buf: &[u8]) -> (r: Option<usize>)
    ensures
        buf@.len() == 0 ==> r is None,
        buf@.len() > 0 ==> r == Some(varint_len_of_first(buf@[0]) as usize),
{
    if buf.len() == 0 {
        None
    } else {
        let b = buf[0];
        if b < 0x40 {
            Some(1)
        } else if b < 0x80 {
            Some(2)
        } else if b < 0xc0 {
            Some(4)
        } else {
            Some(8)
        }
    }
}

/// Decoding an encoding gives back the value and its length, whatever follows it.
pub proof fn lemma_varint_roundtrip(v: u64, rest: Seq<u8>)
    requires
        v <= VARINT_MAX_VALUE,
    ensures
        varint_encoding(v).len() == varint_len(v),
        varint_decoding(varint_encoding(v) + rest) == Some((v, varint_len(v))),
{
    let n = varint_len(v);
    let x: nat = (v + varint_len_code(n) * varint_value_range(n)) as nat;
    let enc = varint_encoding(v);
    assert(pow256(1) == 0x100 && pow256(2) == 0x1_0000 && pow256(4) == 0x1_0000_0000
        && pow256(8) == 0x1_0000_0000_0000_0000 && pow256(0) == 1 && pow256(3) == 0x100_0000
        && pow256(7) == 0x100_0000_0000_0000) by {
        reveal_with_fuel(pow256, 9);
    }
    assert(x < pow256(n));
    lemma_be_bytes_len(x, n);
    lemma_be_bytes_first(x, n);
    lemma_be_value_of_bytes(x, n);
    let all = enc + rest;
    assert(all.take(n as int) =~= enc);
    assert(all[0] == enc[0]);
    let f = x / pow256((n - 1) as nat);
    if n == 1 {
        assert(f == x);
    } else if n == 2 {
        assert(0x40 <= f < 0x80) by (nonlinear_arith)
            requires
                f == x / 0x100,
                0x4000 <= x < 0x8000,
        ;
    } else if n == 4 {
        assert(0x80 <= f < 0xc0) by (nonlinear_arith)
            requires
                f == x / 0x100_0000,
                0x8000_0000 <= x < 0xc000_0000,
        ;
    } else {
        assert(0xc0 <= f < 0x100) by (nonlinear_arith)
            requires
                f == x / 0x100_0000_0000_0000,
                0xc000_0000_0000_0000 <= x < 0x1_0000_0000_0000_0000,
        ;
    }
    assert(varint_len_of_first(enc[0]) == n);
    assert(x % pow256(n) == x) by {
        vstd::arithmetic::div_mod::lemma_small_mod(x, pow256(n));
    }
    assert(x % varint_value_range(n) == v);
}

/// The message of a range error.
pub open spec fn varint_error_message(e: VarIntError) -> Seq<char> {
    match e {
        VarIntError::OutOfRange { value } => "varint value "@ + decimal_chars(value as nat)
            + " exceeds the maximum allowed by RFC 9000 Section 16 (2^62 - 1)"@,
    }
}

impl VarIntError {
    /// The message of this error.
    pub fn to_string(&self) -> (r: String)
        ensures
            r@ == varint_error_message(*self),
    {
        let mut v: Vec<char> = Vec::new();
        match self {
            VarIntError::OutOfRange { value } => {
                push_str(&mut v, "varint value ");
                push_radix(&mut v, *value, 10);
                push_str(&mut v, " exceeds the maximum allowed by RFC 9000 Section 16 (2^62 - 1)");
            },
        }
        assert(v@ =~= varint_error_message(*self));
        string_from_chars(v.as_slice())
    }
}

impl VarInt {
    /// A value that the caller knows to be in range.
    pub fn from_validated_parts(value: u64) -> (r: VarInt)
        requires
            value <= VARINT_MAX_VALUE,
        ensures
            r@ == value,
    {
        VarInt(value)
    }

    /// The value in decimal, as `Display` writes it.
    pub fn to_string(&self) -> (r: String)
        ensures
            r@ == decimal_chars(self@ as nat),
    {
        let mut v: Vec<char> = Vec::new();
        push_radix(&mut v, self.0, 10);
        assert(v@ =~= decimal_chars(self@ as nat));
        string_from_chars(v.as_slice())
    }
}

/// The one- and two-byte forms of RFC 9000 Section 16: a value below 64 is
/// the single byte holding it; a value below 16384 is two bytes, the first
/// `0x40` plus its high bits, the second its low eight bits.
pub proof fn lemma_varint_short_forms(v: u64)
    ensures
        v < 64 ==> varint_encoding(v) == seq![v as u8],
        64 <= v < 16384 ==> varint_encoding(v) == seq![(0x40 + v / 256) as u8, (v % 256) as u8],
{
    if v < 64 {
        assert(varint_len(v) == 1);
        assert(varint_len_code(1) == 0);
        assert(varint_encoding(v) == be_bytes(v as nat, 1));
        assert(be_bytes(v as nat, 1) == be_bytes((v / 256) as nat, 0).push((v % 256) as u8));
        assert(v % 256 == v);
        assert(be_bytes((v / 256) as nat, 0) == Seq::<u8>::empty());
        assert(varint_encoding(v) =~= seq![v as u8]);
    } else if v < 16384 {
        let x: nat = (v + 0x4000) as nat;
        assert(varint_len(v) == 2);
        assert(varint_encoding(v) == be_bytes(x, 2));
        assert(be_bytes(x, 2) == be_bytes(x / 256, 1).push((x % 256) as u8));
        assert(be_bytes(x / 256, 1) == be_bytes(x / 256 / 256, 0).push(((x / 256) % 256) as u8));
        assert(varint_len_code(2) == 1 && varint_value_range(2) == 0x4000);
        assert(be_bytes(x / 256 / 256, 0) == Seq::<u8>::empty());
        assert(x / 256 == 0x40 + v / 256);
        assert(x % 256 == v % 256);
        assert(varint_encoding(v) =~= seq![(0x40 + v / 256) as u8, (v % 256) as u8]);
    }
}

/// Reading the one- and two-byte forms: a first byte below `0x40` is the
/// value itself; a first byte `b0` from `0x40` to `0x7f` and a second byte
/// `b1` give `(b0 - 0x40) * 256 + b1`; whatever follows is not read.
pub proof fn lemma_varint_decode_short_forms(b0: u8, b1: u8, rest: Seq<u8>)
    ensures
        b0 < 0x40 ==> varint_decoding(seq![b0] + rest) == Some((b0 as u64, 1nat)),
        0x40 <= b0 < 0x80 ==> varint_decoding(seq![b0, b1] + rest) == Some((
            ((b0 - 0x40) * 256 + b1) as u64,
            2nat,
        )),
{
    if b0 < 0x40 {
        let d = seq![b0] + rest;
        assert(d.take(1) =~= seq![b0]);
        assert(seq![b0].drop_last() =~= Seq::<u8>::empty());
        assert(be_value(Seq::<u8>::empty()) == 0);
        assert(be_value(seq![b0]) == b0);
    } else if b0 < 0x80 {
        let d = seq![b0, b1] + rest;
        assert(d.take(2) =~= seq![b0, b1]);
        assert(seq![b0, b1].drop_last() =~= seq![b0]);
        assert(seq![b0].drop_last() =~= Seq::<u8>::empty());
        assert(be_value(Seq::<u8>::empty()) == 0);
        assert(be_value(seq![b0]) == b0);
        assert(be_value(seq![b0, b1]) == b0 * 256 + b1);
        assert((b0 * 256 + b1) % 0x4000 == (b0 - 0x40) * 256 + b1);
    }
}

} // verus!
