//! The byte buffers of the `bytes` crate that streams keep their data in,
//! and what this library relies on of them: a buffer is a sequence of
//! bytes, appended to at the back and consumed from the front.

use vstd::prelude::*;
use bytes::{Buf, BufMut};

verus! {

/// `bytes::BytesMut`, a growable byte buffer.
#[verifier::external_type_specification]
#[verifier::external_body]
pub struct ExBytesMut(bytes::BytesMut);

/// `bytes::Bytes`, an immutable byte buffer.
#[verifier::external_type_specification]
#[verifier::external_body]
pub struct ExBytes(bytes::Bytes);

/// The bytes a `BytesMut` holds.
pub uninterp spec fn bytes_mut_contents(b: bytes::BytesMut) -> Seq<u8>;

/// The bytes a `Bytes` holds.
pub uninterp spec fn bytes_contents(b: bytes::Bytes) -> Seq<u8>;

/// `BytesMut::new`: an empty buffer.
#[verifier::external_body]
pub(crate) fn bytes_mut_new() -> (r: bytes::BytesMut)
    ensures
        bytes_mut_contents(r) == Seq::<u8>::empty(),
{
    bytes::BytesMut::new()
}

/// `BytesMut::extend_from_slice`: appends `s`. It panics only where the
/// new length would overflow `usize`, which `requires` rules out.
#[verifier::external_body]
pub(crate) fn bytes_mut_extend(b: &mut bytes::BytesMut, s: &[u8])
    requires
        bytes_mut_contents(*old(b)).len() + s@.len() <= usize::MAX,
    ensures
        bytes_mut_contents(*final(b)) == bytes_mut_contents(*old(b)) + s@,
{
    b.extend_from_slice(s);
}

/// `BufMut::put_u8` on a `BytesMut`: appends one byte.
#[verifier::external_body]
pub(crate) fn bytes_mut_put_u8(b: &mut bytes::BytesMut, x: u8)
    requires
        bytes_mut_contents(*old(b)).len() + 1 <= usize::MAX,
    ensures
        bytes_mut_contents(*final(b)) == bytes_mut_contents(*old(b)).push(x),
{
    b.put_u8(x);
}

/// `Buf::advance` on a `BytesMut`: drops the first `n` bytes; it panics
/// past the end, which `requires` rules out.
#[verifier::external_body]
pub(crate) fn bytes_mut_advance(b: &mut bytes::BytesMut, n: usize)
    requires
        n <= bytes_mut_contents(*old(b)).len(),
    ensures
        bytes_mut_contents(*final(b)) == bytes_mut_contents(*old(b)).skip(n as int),
{
    b.advance(n);
}

/// `BytesMut::clear`: drops every byte.
#[verifier::external_body]
pub(crate) fn bytes_mut_clear(b: &mut bytes::BytesMut)
    ensures
        bytes_mut_contents(*final(b)) == Seq::<u8>::empty(),
{
    b.clear();
}

/// `BytesMut::len`: the number of bytes.
#[verifier::external_body]
pub(crate) fn bytes_mut_len(b: &bytes::BytesMut) -> (r: usize)
    ensures
        r == bytes_mut_contents(*b).len(),
{
    b.len()
}

/// The bytes of a `BytesMut` as a slice (its `Deref` to `[u8]`).
#[verifier::external_body]
pub(crate) fn bytes_mut_as_slice(b: &bytes::BytesMut) -> (r: &[u8])
    ensures
        r@ == bytes_mut_contents(*b),
{
    &b[..]
}

/// `Bytes::from(Vec<u8>)`: the vector's bytes.
#[verifier::external_body]
pub(crate) fn bytes_from_vec(v: Vec<u8>) -> (r: bytes::Bytes)
    ensures
        bytes_contents(r) == v@,
{
    bytes::Bytes::from(v)
}

/// The bytes of a `Bytes` as a slice (its `Deref` to `[u8]`).
#[verifier::external_body]
pub(crate) fn bytes_as_slice(b: &bytes::Bytes) -> (r: &[u8])
    ensures
        r@ == bytes_contents(*b),
{
    &b[..]
}

} // verus!
