//! Big-endian byte strings: the arithmetic model shared by the wire codecs.

use vstd::prelude::*;

verus! {

/// `256^n`.
pub open spec fn pow256(n: nat) -> nat
    decreases n,
{
    if n == 0 {
        1
    } else {
        256 * pow256((n - 1) as nat)
    }
}

/// The value of a big-endian byte string.
pub open spec fn be_value(s: Seq<u8>) -> nat
    decreases s.len(),
{
    if s.len() == 0 {
        0
    } else {
        be_value(s.drop_last()) * 256 + s.last() as nat
    }
}

/// The `n` low-order bytes of `x`, most significant first.
pub open spec fn be_bytes(x: nat, n: nat) -> Seq<u8>
    decreases n,
{
    if n == 0 {
        Seq::empty()
    } else {
        be_bytes(x / 256, (n - 1) as nat).push((x % 256) as u8)
    }
}

pub proof fn lemma_pow256_pos(n: nat)
    ensures
        pow256(n) >= 1,
    decreases n,
{
    if n > 0 {
        lemma_pow256_pos((n - 1) as nat);
    }
}

pub proof fn lemma_be_bytes_len(x: nat, n: nat)
    ensures
        be_bytes(x, n).len() == n,
    decreases n,
{
    if n > 0 {
        lemma_be_bytes_len(x / 256, (n - 1) as nat);
    }
}

/// A string of `n` bytes denotes a value below `256^n`.
pub proof fn lemma_be_value_bound(s: Seq<u8>)
    ensures
        be_value(s) < pow256(s.len()),
    decreases s.len(),
{
    if s.len() > 0 {
        lemma_be_value_bound(s.drop_last());
    }
}

/// Writing `x` on `n` bytes and reading it back gives `x` modulo `256^n`.
pub proof fn lemma_be_value_of_bytes(x: nat, n: nat)
    ensures
        be_value(be_bytes(x, n)) == x % pow256(n),
    decreases n,
{
    lemma_be_bytes_len(x, n);
    if n > 0 {
        let p = pow256((n - 1) as nat);
        lemma_pow256_pos((n - 1) as nat);
        lemma_be_value_of_bytes(x / 256, (n - 1) as nat);
        let b = be_bytes(x, n);
        assert(b.drop_last() =~= be_bytes(x / 256, (n - 1) as nat));
        assert(x % (256 * p) == 256 * ((x / 256) % p) + x % 256) by {
            vstd::arithmetic::div_mod::lemma_breakdown(x as int, 256, p as int);
        }
    } else {
        assert(x % 1 == 0);
    }
}

/// Reading a string and writing the value back on as many bytes gives the string.
pub proof fn lemma_be_bytes_of_value(s: Seq<u8>)
    ensures
        be_bytes(be_value(s), s.len()) == s,
    decreases s.len(),
{
    if s.len() > 0 {
        let init = s.drop_last();
        lemma_be_bytes_of_value(init);
        let v = be_value(s);
        assert(v / 256 == be_value(init));
        assert(v % 256 == s.last());
        assert(be_bytes(v, s.len()) =~= s);
    }
}

/// The leading byte of the encoding of `x < 256^n` is `x / 256^(n-1)`.
pub proof fn lemma_be_bytes_first(x: nat, n: nat)
    requires
        n > 0,
        x < pow256(n),
    ensures
        be_bytes(x, n)[0] as nat == x / pow256((n - 1) as nat),
    decreases n,
{
    lemma_be_bytes_len(x, n);
    if n == 1 {
        assert(pow256(1) == 256) by {
            reveal_with_fuel(pow256, 2);
        }
        assert(pow256(0) == 1);
    } else {
        let q = pow256((n - 2) as nat);
        lemma_pow256_pos((n - 2) as nat);
        assert(pow256((n - 1) as nat) == 256 * q);
        assert(pow256(n) == 256 * (256 * q));
        assert(x / 256 < 256 * q) by {
            vstd::arithmetic::div_mod::lemma_div_by_multiple_is_strongly_ordered(
                x as int,
                (256 * (256 * q)) as int,
                (256 * q) as int,
                256,
            );
        }
        lemma_be_bytes_first(x / 256, (n - 1) as nat);
        lemma_be_bytes_len(x / 256, (n - 1) as nat);
        assert(x / 256 / q == x / (256 * q)) by {
            vstd::arithmetic::div_mod::lemma_div_denominator(x as int, 256, q as int);
        }
    }
}

/// `256^k` for `k <= 7`, as a machine word.
pub fn pow256_u64(k: usize) -> (r: u64)
    requires
        k <= 7,
    ensures
        r as nat == pow256(k as nat),
{
    proof {
        reveal_with_fuel(pow256, 8);
    }
    match k {
        0 => 1,
        1 => 0x100,
        2 => 0x1_0000,
        3 => 0x100_0000,
        4 => 0x1_0000_0000,
        5 => 0x100_0000_0000,
        6 => 0x1_0000_0000_0000,
        _ => 0x100_0000_0000_0000,
    }
}

/// The `n`-byte big-endian encoding of `x`.
pub fn be_encode(x: u64, n: usize) -> (r: Vec<u8>)
    requires
        n <= 8,
    ensures
        r@ == be_bytes(x as nat, n as nat),
    decreases n,
{
    if n == 0 {
        Vec::new()
    } else {
        let mut r = be_encode(x / 256, n - 1);
        r.push((x % 256) as u8);
        r
    }
}

/// The value of the first `n` bytes of `s`, read big-endian.
pub fn be_decode(s: &[u8], n: usize) -> (r: u64)
    requires
        n <= 8,
        n <= s.len(),
    ensures
        r as nat == be_value(s@.take(n as int)),
{
    let mut acc: u64 = 0;
    let mut i: usize = 0;
    while i < n
        invariant
            i <= n,
            n <= 8,
            n <= s.len(),
            acc as nat == be_value(s@.take(i as int)),
        decreases n - i,
    {
        proof {
            lemma_be_value_bound(s@.take(i as int));
            assert(pow256(i as nat) <= pow256(7)) by {
                lemma_pow256_mono(i as nat, 7);
            }
            assert(pow256(7) == 0x100_0000_0000_0000) by {
                reveal_with_fuel(pow256, 8);
            }
            assert(s@.take(i + 1).drop_last() =~= s@.take(i as int));
        }
        acc = acc * 256 + s[i] as u64;
        i = i + 1;
    }
    acc
}

pub proof fn lemma_pow256_mono(a: nat, b: nat)
    requires
        a <= b,
    ensures
        pow256(a) <= pow256(b),
    decreases b,
{
    if a < b {
        lemma_pow256_mono(a, (b - 1) as nat);
    }
}

/// Appends the bytes `b` to `out`.
pub fn append_bytes(out: &mut Vec<u8>, b: &[u8])
    ensures
        final(out)@ == old(out)@ + b@,
{
    out.extend_from_slice(b);
    assert(out@ =~= old(out)@ + b@);
}

} // verus!
