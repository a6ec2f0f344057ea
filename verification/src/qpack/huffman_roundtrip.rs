//! Decoding the Huffman coding of a string gives the string back.
//!
//! The proof follows the decoder through the coded bits: after each input
//! byte, the symbols whose codes lie wholly in the bits read so far have
//! been output, and the accumulator holds the bits of the next code read so
//! far, or the padding.

use vstd::prelude::*;
use vstd::arithmetic::power2::{pow2, lemma_pow2_adds, lemma_pow2_pos, lemma2_to64};
use vstd::arithmetic::div_mod::{
    lemma_fundamental_div_mod, lemma_fundamental_div_mod_converse, lemma_mod_bound, lemma_div_denominator,
};
use crate::bytes_be::{be_bytes, lemma_be_bytes_len};
use crate::qpack::huffman::{
    huff_bits, huff_code, huffman_bit_len, huffman_value, huffman_encoded_len, huffman_padding,
    huffman_encoding, huffman_decoding, sym_matches, is_first_match, first_match, read_symbols, read_bytes,
    lemma_huff_table, lemma_first_match,
};
use crate::qpack::huffman_table::{code_start, code_end, lemma_code_disjoint};

verus! {

// ---------------------------------------------------------------------------
// Powers of two

/// Splitting `c * 2^m + r` (with `r < 2^m`) at bit `e <= m`.
proof fn lemma_split(c: nat, r: nat, m: nat, e: nat)
    requires
        r < pow2(m),
        e <= m,
    ensures
        (c * pow2(m) + r) / pow2(e) == c * pow2((m - e) as nat) + r / pow2(e),
        r / pow2(e) < pow2((m - e) as nat),
        (c * pow2(m) + r) % pow2(e) == r % pow2(e),
{
    let pe = pow2(e) as int;
    let pm = pow2((m - e) as nat) as int;
    lemma_pow2_adds((m - e) as nat, e);
    assert((m - e) as nat + e == m);
    lemma_pow2_pos(e);
    lemma_pow2_pos((m - e) as nat);
    lemma_fundamental_div_mod(r as int, pe);
    lemma_mod_bound(r as int, pe);
    let q = r as int / pe;
    let rr = r as int % pe;
    assert(c * pow2(m) + r == (c * pm + q) * pe + rr) by (nonlinear_arith)
        requires
            pow2(m) == pm * pe,
            r == pe * q + rr,
    ;
    assert(0 <= q) by (nonlinear_arith)
        requires
            r == pe * q + rr,
            0 <= rr < pe,
            r >= 0,
    ;
    lemma_fundamental_div_mod_converse((c * pow2(m) + r) as int, pe, c * pm + q, rr);
    assert(q < pm) by (nonlinear_arith)
        requires
            r == pe * q + rr,
            0 <= rr,
            r < pm * pe,
            pe > 0,
    ;
}

/// Dividing `c * p + q`, with `q < p`, by `p`.
proof fn lemma_divmod_sum(c: int, q: int, p: int)
    requires
        p > 0,
        0 <= q < p,
    ensures
        (c * p + q) / p == c,
        (c * p + q) % p == q,
{
    lemma_fundamental_div_mod_converse(c * p + q, p, c, q);
}

/// Dividing by `2^a`, then by `2^b`, is dividing by `2^(a + b)`.
proof fn lemma_div_div(x: nat, a: nat, b: nat)
    ensures
        (x / pow2(a)) / pow2(b) == x / pow2(a + b),
{
    lemma_pow2_pos(a);
    lemma_pow2_pos(b);
    lemma_pow2_adds(a, b);
    lemma_div_denominator(x as int, pow2(a) as int, pow2(b) as int);
}

/// A number below `2^m` has nothing above bit `m`.
proof fn lemma_small_div(r: nat, m: nat)
    requires
        r < pow2(m),
    ensures
        r / pow2(m) == 0,
{
    lemma_split(0, r, m, m);
    assert(pow2(0) == 1) by {
        lemma2_to64();
    }
}

/// The top `a` bits of `p` ones are `a` ones.
proof fn lemma_ones_top(p: nat, a: nat)
    requires
        a <= p,
    ensures
        (pow2(p) - 1) as nat / pow2((p - a) as nat) == (pow2(a) - 1) as nat,
{
    let d = (p - a) as nat;
    lemma_pow2_adds(a, d);
    assert(a + d == p);
    lemma_pow2_pos(a);
    lemma_pow2_pos(d);
    let pa = pow2(a) as int;
    let pd = pow2(d) as int;
    assert(pow2(p) - 1 == (pa - 1) * pd + (pd - 1)) by (nonlinear_arith)
        requires
            pow2(p) == pa * pd,
    ;
    lemma_fundamental_div_mod_converse(pow2(p) - 1, pd, pa - 1, pd - 1);
}

// ---------------------------------------------------------------------------
// The code is prefix-free

/// No code is the start of another.
proof fn lemma_no_prefix(s: int, t: int, d: nat)
    requires
        0 <= s < 257,
        0 <= t < 257,
        s != t,
        huff_bits(t) + d == huff_bits(s),
    ensures
        huff_code(s) / pow2(d) != huff_code(t),
{
    lemma_huff_table(s);
    lemma_huff_table(t);
    if huff_code(s) / pow2(d) == huff_code(t) {
        lemma_code_disjoint(s, t);
        let ws = (32 - huff_bits(s)) as nat;
        let wt = (32 - huff_bits(t)) as nat;
        assert(wt == ws + d);
        lemma_pow2_adds(d, ws);
        lemma_pow2_pos(d);
        lemma_pow2_pos(ws);
        let pd = pow2(d) as int;
        let pw = pow2(ws) as int;
        let c = huff_code(s) as int;
        lemma_fundamental_div_mod(c, pd);
        lemma_mod_bound(c, pd);
        let q = c / pd;
        let r = c % pd;
        assert(code_start(s) == q * (pd * pw) + r * pw) by (nonlinear_arith)
            requires
                code_start(s) == c * pw,
                c == pd * q + r,
        ;
        assert(r * pw < pd * pw) by (nonlinear_arith)
            requires
                0 <= r < pd,
                pw > 0,
        ;
        assert(0 <= r * pw) by (nonlinear_arith)
            requires
                0 <= r,
                pw > 0,
        ;
        assert(code_start(t) == q * (pd * pw));
        assert(code_end(t) == code_start(t) + pd * pw);
        assert(code_start(s) < code_end(s));
    }
}

/// At most one code starts an accumulator.
proof fn lemma_match_unique(acc: nat, ab: nat, s: int, t: int)
    requires
        0 <= s < 257,
        0 <= t < 257,
        s != t,
        sym_matches(acc, ab, s),
    ensures
        !sym_matches(acc, ab, t),
{
    if sym_matches(acc, ab, t) {
        let bs = huff_bits(s);
        let bt = huff_bits(t);
        if bt <= bs {
            lemma_div_div(acc, (ab - bs) as nat, (bs - bt) as nat);
            assert((ab - bs) as nat + (bs - bt) as nat == (ab - bt) as nat);
            lemma_no_prefix(s, t, (bs - bt) as nat);
        } else {
            lemma_div_div(acc, (ab - bt) as nat, (bt - bs) as nat);
            assert((ab - bt) as nat + (bt - bs) as nat == (ab - bs) as nat);
            lemma_no_prefix(t, s, (bt - bs) as nat);
        }
    }
}

/// The first bits of a code, short of the whole code, start no code.
proof fn lemma_prefix_no_match(acc: nat, ab: nat, s: int)
    requires
        0 <= s < 257,
        ab < huff_bits(s),
        acc == huff_code(s) / pow2((huff_bits(s) - ab) as nat),
    ensures
        forall|t: int| 0 <= t < 257 ==> !#[trigger] sym_matches(acc, ab, t),
{
    assert forall|t: int| 0 <= t < 257 implies !#[trigger] sym_matches(acc, ab, t) by {
        if sym_matches(acc, ab, t) {
            let bs = huff_bits(s);
            let bt = huff_bits(t);
            lemma_div_div(huff_code(s), (bs - ab) as nat, (ab - bt) as nat);
            assert((bs - ab) as nat + (ab - bt) as nat == (bs - bt) as nat);
            lemma_no_prefix(s, t, (bs - bt) as nat);
        }
    }
}

/// Up to seven one bits start no code.
proof fn lemma_ones_no_match(ab: nat)
    requires
        ab <= 7,
    ensures
        forall|t: int| 0 <= t < 257 ==> !#[trigger] sym_matches((pow2(ab) - 1) as nat, ab, t),
{
    lemma2_to64();
    assert forall|t: int| 0 <= t < 257 implies !#[trigger] sym_matches((pow2(ab) - 1) as nat, ab, t) by {
        if sym_matches((pow2(ab) - 1) as nat, ab, t) {
            let bt = huff_bits(t);
            lemma_huff_table(t);
            lemma_ones_top(ab, bt);
            assert(huff_code(t) == pow2(bt) - 1);
            assert(huff_bits(256) == 30 && huff_code(256) == 0x3fffffff);
            lemma_code_disjoint(t, 256);
            let w = (32 - bt) as nat;
            lemma_pow2_adds(bt, w);
            assert(bt + w == 32);
            lemma_pow2_pos(w);
            assert(code_start(t) == (pow2(bt) - 1) * pow2(w));
            assert(code_start(t) == pow2(32) - pow2(w)) by (nonlinear_arith)
                requires
                    code_start(t) == (pow2(bt) - 1) * pow2(w),
                    pow2(32) == pow2(bt) * pow2(w),
            ;
            assert(w >= 25);
            if w > 25 {
                vstd::arithmetic::power2::lemma_pow2_strictly_increases(25, w);
            }
            assert(code_start(256) == 0x3fffffff * 4) by (nonlinear_arith)
                requires
                    huff_code(256) == 0x3fffffff,
                    huff_bits(256) == 30,
                    pow2(2) == 4,
            ;
        }
    }
}

// ---------------------------------------------------------------------------
// The coded bits of a string

/// The codes of a string fit in their bit length.
proof fn lemma_value_bound(x: Seq<u8>)
    ensures
        huffman_value(x) < pow2(huffman_bit_len(x)),
    decreases x.len(),
{
    if x.len() == 0 {
        lemma2_to64();
    } else {
        let init = x.drop_last();
        let c = x.last() as int;
        lemma_value_bound(init);
        lemma_huff_table(c);
        let b = huff_bits(c);
        let li = huffman_bit_len(init);
        lemma_pow2_adds(li, b);
        lemma_pow2_pos(b);
        let vi = huffman_value(init) as int;
        assert(vi * pow2(b) + huff_code(c) < pow2(li) * pow2(b)) by (nonlinear_arith)
            requires
                vi < pow2(li),
                huff_code(c) < pow2(b),
                0 <= vi,
        ;
    }
}

/// The codes of a concatenation are the codes of the parts, one after the
/// other.
proof fn lemma_value_concat(x: Seq<u8>, y: Seq<u8>)
    ensures
        huffman_value(x + y) == huffman_value(x) * pow2(huffman_bit_len(y)) + huffman_value(y),
        huffman_bit_len(x + y) == huffman_bit_len(x) + huffman_bit_len(y),
    decreases y.len(),
{
    if y.len() == 0 {
        assert(x + y =~= x);
        lemma2_to64();
        let vx = huffman_value(x) as int;
        assert(vx * pow2(0) == vx) by (nonlinear_arith)
            requires
                pow2(0) == 1,
        ;
    } else {
        let y0 = y.drop_last();
        let c = y.last() as int;
        assert((x + y).drop_last() =~= x + y0);
        assert((x + y).last() == y.last());
        lemma_value_concat(x, y0);
        let b = huff_bits(c);
        let l0 = huffman_bit_len(y0);
        lemma_pow2_adds(l0, b);
        let vx = huffman_value(x) as int;
        let v0 = huffman_value(y0) as int;
        assert((vx * pow2(l0) + v0) * pow2(b) + huff_code(c) == vx * (pow2(l0) * pow2(b)) + (v0 * pow2(b)
            + huff_code(c))) by (nonlinear_arith);
        assert(huffman_value(x + y) == huffman_value(x + y0) * pow2(b) + huff_code(c));
        assert(huffman_value(y) == v0 * pow2(b) + huff_code(c));
        assert(huffman_bit_len(y) == l0 + b);
        assert(pow2(l0 + b) == pow2(l0) * pow2(b));
    }
}

/// The padding is below a byte.
proof fn lemma_padding(data: Seq<u8>)
    ensures
        huffman_padding(data) <= 7,
        huffman_bit_len(data) + huffman_padding(data) == 8 * huffman_encoded_len(data),
{
}

/// The coded bits of `data` from symbol `k` on, padding included, as a
/// number.
pub open spec fn rest_value(data: Seq<u8>, k: int) -> nat {
    (huffman_value(data.skip(k)) * pow2(huffman_padding(data)) + pow2(huffman_padding(data)) - 1) as nat
}

/// The number of those bits.
pub open spec fn rest_len(data: Seq<u8>, k: int) -> nat {
    huffman_bit_len(data.skip(k)) + huffman_padding(data)
}

/// The rest of the bits fit in their length.
proof fn lemma_rest_bound(data: Seq<u8>, k: int)
    requires
        0 <= k <= data.len(),
    ensures
        rest_value(data, k) < pow2(rest_len(data, k)),
        huffman_value(data.skip(k)) * pow2(huffman_padding(data)) + pow2(huffman_padding(data)) - 1 >= 0,
{
    let p = huffman_padding(data);
    let l = huffman_bit_len(data.skip(k));
    lemma_value_bound(data.skip(k));
    lemma_pow2_pos(p);
    lemma_pow2_adds(l, p);
    let v = huffman_value(data.skip(k)) as int;
    assert(v * pow2(p) + pow2(p) - 1 < pow2(l) * pow2(p)) by (nonlinear_arith)
        requires
            v + 1 <= pow2(l),
            pow2(p) > 0,
    ;
    assert(v * pow2(p) >= 0) by (nonlinear_arith)
        requires
            v >= 0,
            pow2(p) > 0,
    ;
}

/// The rest from symbol `k` is its code, then the rest from `k + 1`.
proof fn lemma_rest_step(data: Seq<u8>, k: int)
    requires
        0 <= k < data.len(),
    ensures
        rest_value(data, k) == huff_code(data[k] as int) * pow2(rest_len(data, k + 1)) + rest_value(data, k + 1),
        rest_len(data, k) == huff_bits(data[k] as int) + rest_len(data, k + 1),
        rest_value(data, k + 1) < pow2(rest_len(data, k + 1)),
{
    let d = data[k];
    let one = seq![d];
    assert(data.skip(k) =~= one + data.skip(k + 1));
    lemma_value_concat(one, data.skip(k + 1));
    assert(one.drop_last() =~= Seq::<u8>::empty());
    assert(one.last() == d);
    assert(huffman_value(Seq::<u8>::empty()) == 0);
    assert(huffman_bit_len(Seq::<u8>::empty()) == 0);
    assert(huffman_value(one) == huff_code(d as int)) by {
        assert(huffman_value(one) == huffman_value(one.drop_last()) * pow2(huff_bits(d as int)) + huff_code(
            d as int,
        ));
        assert(0 * pow2(huff_bits(d as int)) == 0);
    }
    assert(huffman_bit_len(one) == huff_bits(d as int));
    lemma_rest_bound(data, k + 1);
    lemma_rest_bound(data, k);
    let p = huffman_padding(data);
    let l1 = huffman_bit_len(data.skip(k + 1));
    lemma_pow2_adds(l1, p);
    let c = huff_code(d as int) as int;
    let v1 = huffman_value(data.skip(k + 1)) as int;
    assert((c * pow2(l1) + v1) * pow2(p) + pow2(p) - 1 == c * (pow2(l1) * pow2(p)) + (v1 * pow2(p) + pow2(p)
        - 1)) by (nonlinear_arith);
}

/// The rest from symbol `len` is the padding.
proof fn lemma_rest_end(data: Seq<u8>)
    ensures
        rest_value(data, data.len() as int) == (pow2(huffman_padding(data)) - 1) as nat,
        rest_len(data, data.len() as int) == huffman_padding(data),
{
    assert(data.skip(data.len() as int) =~= Seq::<u8>::empty());
    assert(huffman_value(Seq::<u8>::empty()) == 0);
    assert(huffman_bit_len(Seq::<u8>::empty()) == 0);
    lemma_pow2_pos(huffman_padding(data));
    assert(0 * pow2(huffman_padding(data)) == 0);
}

/// All the coded bits are those of the first `k` symbols, then the rest.
proof fn lemma_rest_whole(data: Seq<u8>, k: int)
    requires
        0 <= k <= data.len(),
    ensures
        rest_value(data, 0) == huffman_value(data.take(k)) * pow2(rest_len(data, k)) + rest_value(data, k),
        rest_len(data, 0) == 8 * huffman_encoded_len(data),
        huffman_encoding(data) == be_bytes(rest_value(data, 0), huffman_encoded_len(data)),
{
    assert(data.skip(0) =~= data);
    assert(data =~= data.take(k) + data.skip(k));
    lemma_value_concat(data.take(k), data.skip(k));
    lemma_rest_bound(data, k);
    lemma_rest_bound(data, 0);
    lemma_padding(data);
    let p = huffman_padding(data);
    let l = huffman_bit_len(data.skip(k));
    lemma_pow2_adds(l, p);
    let vt = huffman_value(data.take(k)) as int;
    let vs = huffman_value(data.skip(k)) as int;
    assert((vt * pow2(l) + vs) * pow2(p) + pow2(p) - 1 == vt * (pow2(l) * pow2(p)) + (vs * pow2(p) + pow2(p)
        - 1)) by (nonlinear_arith);
}

/// Byte `i` of `n` big-endian bytes of `x`.
proof fn lemma_be_byte(x: nat, n: nat, i: int)
    requires
        0 <= i < n,
    ensures
        be_bytes(x, n)[i] as nat == (x / pow2((8 * (n - 1 - i)) as nat)) % 256,
    decreases n,
{
    lemma_be_bytes_len(x, n);
    lemma_be_bytes_len(x / 256, (n - 1) as nat);
    lemma2_to64();
    if i == n - 1 {
        assert(be_bytes(x, n)[i] == (x % 256) as u8);
        assert((8 * (n - 1 - i)) as nat == 0);
        assert(x / 1 == x);
    } else {
        lemma_be_byte(x / 256, (n - 1) as nat, i);
        assert(be_bytes(x, n)[i] == be_bytes(x / 256, (n - 1) as nat)[i]);
        lemma_div_div(x, 8, (8 * (n - 2 - i)) as nat);
        assert(8 + (8 * (n - 2 - i)) as nat == (8 * (n - 1 - i)) as nat);
    }
}

// ---------------------------------------------------------------------------
// The decoder on a coding

/// The decoder has output the first `k` symbols and its `ab`-bit
/// accumulator `acc` holds the bits that follow them.
pub open spec fn decoding_state(data: Seq<u8>, k: int, acc: nat, ab: nat) -> bool {
    &&& 0 <= k <= data.len()
    &&& ab <= rest_len(data, k)
    &&& acc == rest_value(data, k) / pow2((rest_len(data, k) - ab) as nat)
}

/// The accumulator holds no whole code of the next symbol.
pub open spec fn settled(data: Seq<u8>, k: int, ab: nat) -> bool {
    k == data.len() || ab < huff_bits(data[k] as int)
}

/// Where the accumulator holds the whole code of the next symbol, that code
/// tops it, and what follows is the rest from the symbol after.
proof fn lemma_consume(data: Seq<u8>, k: int, acc: nat, ab: nat)
    requires
        decoding_state(data, k, acc, ab),
        k < data.len(),
        ab >= huff_bits(data[k] as int),
    ensures
        sym_matches(acc, ab, data[k] as int),
        decoding_state(data, k + 1, acc % pow2((ab - huff_bits(data[k] as int)) as nat), (ab - huff_bits(data[k] as int)) as nat),
{
    let s = data[k] as int;
    let b = huff_bits(s);
    lemma_huff_table(s);
    lemma_rest_step(data, k);
    let e = (rest_len(data, k) - ab) as nat;
    let rl1 = rest_len(data, k + 1);
    let r1 = rest_value(data, k + 1);
    let c = huff_code(s);
    let d = (ab - b) as nat;
    assert(e + d == rl1);
    // The code of `s` tops the accumulator.
    lemma_div_div(rest_value(data, k), e, d);
    lemma_split(c, r1, rl1, rl1);
    lemma_small_div(r1, rl1);
    assert(pow2(0) == 1) by {
        lemma2_to64();
    }
    assert(c * pow2(0) == c) by (nonlinear_arith)
        requires
            pow2(0) == 1,
    ;
    assert(acc / pow2(d) == c);
    // What is left is the rest from `k + 1`.
    lemma_split(c, r1, rl1, e);
    assert((rl1 - e) as nat == d);
    lemma_pow2_pos(d);
    let q = r1 / pow2(e);
    assert(acc == c * pow2(d) + q);
    lemma_pow2_pos(e);
    assert(q < pow2(d));
    lemma_divmod_sum(c as int, q as int, pow2(d) as int);
}

/// Where the accumulator holds only part of the code of the next symbol,
/// it is the start of that code.
proof fn lemma_partial(data: Seq<u8>, k: int, acc: nat, ab: nat)
    requires
        decoding_state(data, k, acc, ab),
        k < data.len(),
        ab < huff_bits(data[k] as int),
    ensures
        acc == huff_code(data[k] as int) / pow2((huff_bits(data[k] as int) - ab) as nat),
{
    let s = data[k] as int;
    let b = huff_bits(s);
    lemma_huff_table(s);
    lemma_rest_step(data, k);
    let e = (rest_len(data, k) - ab) as nat;
    let rl1 = rest_len(data, k + 1);
    let r1 = rest_value(data, k + 1);
    let c = huff_code(s);
    lemma_split(c, r1, rl1, rl1);
    lemma_small_div(r1, rl1);
    assert(pow2(0) == 1) by {
        lemma2_to64();
    }
    assert(c * pow2(0) == c) by (nonlinear_arith)
        requires
            pow2(0) == 1,
    ;
    lemma_div_div(rest_value(data, k), rl1, (b - ab) as nat);
    assert(rl1 + (b - ab) as nat == e);
}

/// The decoder reads the symbols whose codes lie wholly in the accumulator,
/// and stops before the next.
proof fn lemma_read_symbols(data: Seq<u8>, k: int, acc: nat, ab: nat) -> (k2: int)
    requires
        decoding_state(data, k, acc, ab),
    ensures
        k <= k2 <= data.len(),
        match read_symbols(acc, ab, data.take(k)) {
            Some((a2, b2, o2)) => {
                &&& o2 == data.take(k2)
                &&& decoding_state(data, k2, a2, b2)
                &&& settled(data, k2, b2)
                &&& rest_len(data, k2) - b2 == rest_len(data, k) - ab
            },
            None => false,
        },
    decreases ab,
{
    let n = data.len() as int;
    lemma_rest_bound(data, k);
    let e = (rest_len(data, k) - ab) as nat;
    lemma_split(0, rest_value(data, k), rest_len(data, k), e);
    assert(acc < pow2(ab));
    if ab < 5 {
        if k < n {
            lemma_huff_table(data[k] as int);
        }
        assert(read_symbols(acc, ab, data.take(k)) == Some((acc, ab, data.take(k))));
        k
    } else if k < n && ab >= huff_bits(data[k] as int) {
        let s = data[k] as int;
        let b = huff_bits(s);
        lemma_huff_table(s);
        lemma_consume(data, k, acc, ab);
        assert forall|t: int| 0 <= t < s implies !sym_matches(acc, ab, t) by {
            lemma_match_unique(acc, ab, s, t);
        }
        assert(is_first_match(acc, ab, s));
        lemma_first_match(acc, ab, s);
        let a2 = acc % pow2((ab - b) as nat);
        assert(data.take(k).push(data[k]) =~= data.take(k + 1));
        lemma_rest_step(data, k);
        assert(data.take(k).push(s as u8) == data.take(k + 1));
        lemma_pow2_pos((ab - b) as nat);
        assert(read_symbols(acc, ab, data.take(k)) == read_symbols(a2, (ab - b) as nat, data.take(k + 1)));
        let k2 = lemma_read_symbols(data, k + 1, a2, (ab - b) as nat);
        k2
    } else if k < n {
        let s = data[k] as int;
        lemma_huff_table(s);
        lemma_partial(data, k, acc, ab);
        lemma_prefix_no_match(acc, ab, s);
        lemma_first_match(acc, ab, s);
        assert(read_symbols(acc, ab, data.take(k)) == Some((acc, ab, data.take(k))));
        k
    } else {
        lemma_rest_end(data);
        lemma_padding(data);
        let p = huffman_padding(data);
        lemma_ones_top(p, ab);
        assert(acc == (pow2(ab) - 1) as nat);
        lemma_ones_no_match(ab);
        lemma_first_match(acc, ab, 0);
        assert(read_symbols(acc, ab, data.take(k)) == Some((acc, ab, data.take(k))));
        k
    }
}

/// The next byte of the coding, appended to the accumulator, gives the next
/// eight bits of the rest.
proof fn lemma_next_byte(data: Seq<u8>, k: int, acc: nat, ab: nat, i: int)
    requires
        decoding_state(data, k, acc, ab),
        0 <= i < huffman_encoded_len(data),
        rest_len(data, k) - ab == 8 * (huffman_encoded_len(data) - i),
    ensures
        acc * 256 + huffman_encoding(data)[i] == rest_value(data, k) / pow2((rest_len(data, k) - ab - 8) as nat),
{
    let n = huffman_encoded_len(data);
    let rl = rest_len(data, k);
    let r = rest_value(data, k);
    let e = (rl - ab - 8) as nat;
    lemma_rest_whole(data, k);
    lemma_rest_bound(data, k);
    lemma_be_byte(rest_value(data, 0), n, i);
    assert(e == (8 * (n - 1 - i)) as nat);
    let vt = huffman_value(data.take(k));
    lemma_split(vt, r, rl, e);
    assert(rl - e == ab + 8);
    lemma_pow2_adds(ab, 8);
    lemma2_to64();
    let y = r / pow2(e);
    let m = vt * pow2(ab);
    assert(vt * pow2((ab + 8) as nat) == m * 256) by (nonlinear_arith)
        requires
            pow2((ab + 8) as nat) == pow2(ab) * pow2(8),
            pow2(8) == 256,
            m == vt * pow2(ab),
    ;
    let yi = y as int;
    let mi = m as int;
    lemma_fundamental_div_mod(yi, 256);
    lemma_mod_bound(yi, 256);
    assert(mi * 256 + yi == (mi + yi / 256) * 256 + yi % 256) by (nonlinear_arith)
        requires
            yi == 256 * (yi / 256) + yi % 256,
    ;
    lemma_divmod_sum(mi + yi / 256, yi % 256, 256);
    lemma_div_div(r, e, 8);
    assert(e + 8 == rl - ab);
}

/// From byte `i` on, the decoder outputs the rest of the string.
proof fn lemma_read_bytes(data: Seq<u8>, i: int, k: int, acc: nat, ab: nat)
    requires
        decoding_state(data, k, acc, ab),
        settled(data, k, ab),
        0 <= i <= huffman_encoded_len(data),
        rest_len(data, k) - ab == 8 * (huffman_encoded_len(data) - i),
    ensures
        read_bytes(huffman_encoding(data), i as nat, acc, ab, data.take(k)) == Ok::<Seq<u8>, crate::error::QpackError>(data),
    decreases huffman_encoded_len(data) - i,
{
    let n = huffman_encoded_len(data);
    let enc = huffman_encoding(data);
    lemma_rest_whole(data, k);
    lemma_be_bytes_len(rest_value(data, 0), n);
    lemma_padding(data);
    if i >= n {
        if k < data.len() {
            lemma_rest_step(data, k);
        }
        lemma_rest_end(data);
        assert(data.take(k) =~= data);
        lemma_pow2_pos(ab);
        assert(pow2(0) == 1) by {
            lemma2_to64();
        }
        assert(acc == rest_value(data, k) / 1);
    } else {
        lemma_next_byte(data, k, acc, ab, i);
        let a1 = (acc * 256 + enc[i]) as nat;
        let b1 = (ab + 8) as nat;
        assert(decoding_state(data, k, a1, b1));
        let k2 = lemma_read_symbols(data, k, a1, b1);
        match read_symbols(a1, b1, data.take(k)) {
            Some((a2, b2, o2)) => {
                if k2 < data.len() {
                    lemma_huff_table(data[k2] as int);
                } else {
                    lemma_rest_end(data);
                }
                lemma_read_bytes(data, i + 1, k2, a2, b2);
            },
            None => {},
        }
    }
}

/// Decoding the Huffman coding of a string gives the string back.
pub proof fn lemma_huffman_roundtrip(data: Seq<u8>)
    ensures
        huffman_decoding(huffman_encoding(data)) == Ok::<Seq<u8>, crate::error::QpackError>(data),
{
    lemma_rest_whole(data, 0);
    lemma_rest_bound(data, 0);
    lemma_small_div(rest_value(data, 0), rest_len(data, 0));
    if data.len() > 0 {
        lemma_huff_table(data[0] as int);
    }
    assert(data.take(0) =~= Seq::<u8>::empty());
    lemma_read_bytes(data, 0, 0, 0, 0);
}

} // verus!
