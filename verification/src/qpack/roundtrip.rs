//! What a decoder reads back from what an encoder wrote.

use vstd::prelude::*;
use crate::error::QpackError;
use crate::qpack::header::HeaderView;
use crate::qpack::integer::{prefix_int_encoding, prefix_int_decoding, prefix_max, pow128,
    lemma_prefix_int_roundtrip};
use crate::qpack::table::{STATIC_TABLE_LEN, static_exact, static_name, static_value};
use crate::qpack::wire::{string_repr, string_decoding, string_bytes_decoding};
use crate::qpack::huffman::huffman_encoding;
use crate::qpack::huffman_roundtrip::lemma_huffman_roundtrip;
use crate::qpack::encoder::{static_section_encoding, static_line_encoding, static_line_fn, lines_encoding,
    static_exact_index, static_name_index, is_first_static_exact, is_first_static_name, value_repr,
    literal_line, static_indexed_line, static_name_line};
use crate::qpack::decoder::{static_section_decoding, static_line_decoding, static_line_fn as read_line_fn,
    section_lines, line_view, line_size, literal_name_decoding, LineResult};

verus! {

/// The headers a decoder gives back: names and values, never-indexed dropped.
pub open spec fn decoded_views(hs: Seq<HeaderView>) -> Seq<HeaderView> {
    hs.map_values(|h: HeaderView| line_view(h.name, h.value))
}

/// The field section size of headers (RFC 9114 Section 4.2.2).
pub open spec fn lines_size(hs: Seq<HeaderView>) -> nat
    decreases hs.len(),
{
    if hs.len() == 0 {
        0
    } else {
        line_size(line_view(hs[0].name, hs[0].value)) + lines_size(hs.skip(1))
    }
}

/// Names and values short enough for their lengths to be read back.
pub open spec fn lengths_ok(hs: Seq<HeaderView>) -> bool {
    forall|i: int| 0 <= i < hs.len() ==> (#[trigger] hs[i]).name.len() < 0x4000_0000_0000_0000
        && hs[i].value.len() < 0x4000_0000_0000_0000
}

/// The lines of a list, taken from the front.
pub proof fn lemma_lines_front(hs: Seq<HeaderView>, f: spec_fn(HeaderView) -> Seq<u8>)
    requires
        hs.len() > 0,
    ensures
        lines_encoding(hs, f) == f(hs[0]) + lines_encoding(hs.skip(1), f),
    decreases hs.len(),
{
    if hs.len() == 1 {
        assert(hs.drop_last() =~= Seq::<HeaderView>::empty());
        assert(hs.skip(1) =~= Seq::<HeaderView>::empty());
        assert(lines_encoding(hs.drop_last(), f) == Seq::<u8>::empty());
        assert(lines_encoding(hs.skip(1), f) == Seq::<u8>::empty());
        assert(hs.last() == hs[0]);
        assert(lines_encoding(hs, f) =~= f(hs[0]));
    } else {
        lemma_lines_front(hs.drop_last(), f);
        assert(hs.drop_last().skip(1) =~= hs.skip(1).drop_last());
        assert(hs.skip(1).last() == hs.last());
        assert(lines_encoding(hs, f) =~= f(hs[0]) + lines_encoding(hs.skip(1), f));
    }
}

/// What reading a string literal back gives: its bytes, after a length
/// prefix, the whole literal read.
pub open spec fn repr_reads_back(s: Seq<u8>, d: Seq<u8>, lit_len: nat, n: nat, hbit: u8) -> bool {
    &&& d.len() > 0
    &&& n == 3 ==> d[0] & 0x80 == 0 && d[0] & 0x40 == 0 && d[0] & 0x20 != 0
    &&& n == 5 ==> d[0] & 0x80 == 0 && d[0] & 0x40 != 0
    &&& prefix_int_decoding(d, n) matches Ok((l, p))
    &&& string_bytes_decoding(d.skip(p as int), l, d[0] & hbit != 0) == Ok::<(Seq<u8>, nat), QpackError>((s, l))
    &&& p + l == lit_len
}

/// The first byte of a prefixed integer holds the prefix and the low bits.
proof fn lemma_first_byte(value: nat, n: nat, prefix: u8, rest: Seq<u8>)
    requires
        n == 3 || n == 5 || n == 7,
    ensures
        (prefix_int_encoding(value, n, prefix) + rest)[0] == (prefix | (if value < prefix_max(n) {
            value as u8
        } else {
            prefix_max(n) as u8
        })),
        prefix_int_encoding(value, n, prefix).len() > 0,
{
}

/// A Huffman-coded string literal reads back as the string.
#[verifier::rlimit(50)]
proof fn lemma_repr_roundtrip_huffman(s: Seq<u8>, rest: Seq<u8>, n: nat, prefix: u8, hbit: u8)
    requires
        s.len() < 0x4000_0000_0000_0000,
        (n == 7 && hbit == 0x80 && prefix == 0) || (n == 3 && hbit == 0x08 && (prefix == 0x20 || prefix == 0x30)) || (
            n == 5 && hbit == 0x20 && prefix == 0x40),
        huffman_encoding(s).len() < s.len(),
    ensures
        repr_reads_back(s, string_repr(s, n, prefix, hbit, true) + rest, string_repr(s, n, prefix, hbit, true).len(), n, hbit),
{
    let h = huffman_encoding(s);
    let d = string_repr(s, n, prefix, hbit, true) + rest;
    assert(pow128(9) == 0x8000_0000_0000_0000) by {
        reveal_with_fuel(pow128, 10);
    }
    let m = prefix_max(n);
    let pf: u8 = prefix | hbit;
    if n == 7 {
        assert(pf == 0x80) by (bit_vector)
            requires
                pf == prefix | hbit,
                hbit == 0x80 && prefix == 0,
        ;
        assert(m == 127);
        assert(prefix_max(7) + 1 == 128);
        assert(pf as nat % 128 == 0);
        lemma_prefix_int_roundtrip(h.len(), 7, pf, h + rest);
    } else if n == 5 {
        assert(pf == 0x60) by (bit_vector)
            requires
                pf == prefix | hbit,
                hbit == 0x20 && prefix == 0x40,
        ;
        assert(m == 31);
        assert(prefix_max(5) + 1 == 32);
        assert(pf as nat % 32 == 0);
        lemma_prefix_int_roundtrip(h.len(), 5, pf, h + rest);
    } else {
        assert(pf == 0x28 || pf == 0x38) by (bit_vector)
            requires
                pf == prefix | hbit,
                hbit == 0x08 && (prefix == 0x20 || prefix == 0x30),
        ;
        assert(m == 7);
        assert(prefix_max(3) + 1 == 8);
        assert(pf as nat % 8 == 0);
        lemma_prefix_int_roundtrip(h.len(), 3, pf, h + rest);
    }
    let enc = prefix_int_encoding(h.len(), n, pf);
    assert(d =~= enc + (h + rest));
    lemma_first_byte(h.len(), n, pf, h + rest);
    let x: u8 = if h.len() < m { h.len() as u8 } else { m as u8 };
    assert(d[0] == (pf | x));
    if n == 7 {
        assert((pf | x) & 0x80 != 0) by (bit_vector)
            requires
                pf == 0x80,
        ;
    } else if n == 5 {
        assert((pf | x) & 0x20 != 0 && (pf | x) & 0x80 == 0 && (pf | x) & 0x40 != 0) by (bit_vector)
            requires
                pf == 0x60,
                x <= 31,
        ;
    } else {
        assert((pf | x) & 0x08 != 0 && (pf | x) & 0x80 == 0 && (pf | x) & 0x40 == 0 && (pf | x) & 0x20 != 0)
            by (bit_vector)
            requires
                pf == 0x28 || pf == 0x38,
                x <= 7,
        ;
    }
    assert(d.skip(enc.len() as int) =~= h + rest);
    assert((h + rest).take(h.len() as int) =~= h);
    lemma_huffman_roundtrip(s);
}

/// A string literal without Huffman coding reads back as the string.
#[verifier::rlimit(50)]
proof fn lemma_repr_roundtrip_plain(s: Seq<u8>, rest: Seq<u8>, n: nat, prefix: u8, hbit: u8, use_huffman: bool)
    requires
        s.len() < 0x4000_0000_0000_0000,
        (n == 7 && hbit == 0x80 && prefix == 0) || (n == 3 && hbit == 0x08 && (prefix == 0x20 || prefix == 0x30)) || (
            n == 5 && hbit == 0x20 && prefix == 0x40),
        !(use_huffman && huffman_encoding(s).len() < s.len()),
    ensures
        repr_reads_back(s, string_repr(s, n, prefix, hbit, use_huffman) + rest, string_repr(s, n, prefix, hbit, use_huffman).len(), n, hbit),
{
    let d = string_repr(s, n, prefix, hbit, use_huffman) + rest;
    assert(pow128(9) == 0x8000_0000_0000_0000) by {
        reveal_with_fuel(pow128, 10);
    }
    let m = prefix_max(n);
    if n == 7 {
        assert(m == 127);
        assert(prefix_max(7) + 1 == 128);
        assert(prefix as nat % 128 == 0);
        lemma_prefix_int_roundtrip(s.len(), 7, prefix, s + rest);
    } else if n == 5 {
        assert(m == 31);
        assert(prefix_max(5) + 1 == 32);
        assert(prefix as nat % 32 == 0);
        lemma_prefix_int_roundtrip(s.len(), 5, prefix, s + rest);
    } else {
        assert(m == 7);
        assert(prefix_max(3) + 1 == 8);
        assert(prefix as nat % 8 == 0);
        lemma_prefix_int_roundtrip(s.len(), 3, prefix, s + rest);
    }
    let enc = prefix_int_encoding(s.len(), n, prefix);
    assert(d =~= enc + (s + rest));
    lemma_first_byte(s.len(), n, prefix, s + rest);
    let x: u8 = if s.len() < m { s.len() as u8 } else { m as u8 };
    assert(d[0] == (prefix | x));
    if n == 7 {
        assert((prefix | x) & 0x80 == 0) by (bit_vector)
            requires
                prefix == 0,
                x <= 127,
        ;
    } else if n == 5 {
        assert((prefix | x) & 0x20 == 0 && (prefix | x) & 0x80 == 0 && (prefix | x) & 0x40 != 0) by (bit_vector)
            requires
                prefix == 0x40,
                x <= 31,
        ;
    } else {
        assert((prefix | x) & 0x08 == 0 && (prefix | x) & 0x80 == 0 && (prefix | x) & 0x40 == 0 && (prefix | x)
            & 0x20 != 0) by (bit_vector)
            requires
                prefix == 0x20 || prefix == 0x30,
                x <= 7,
        ;
    }
    assert(d.skip(enc.len() as int) =~= s + rest);
    assert((s + rest).take(s.len() as int) =~= s);
}

/// A string literal, Huffman-coded or not, reads back as the string.
pub proof fn lemma_repr_roundtrip(s: Seq<u8>, rest: Seq<u8>, n: nat, prefix: u8, hbit: u8, use_huffman: bool)
    requires
        s.len() < 0x4000_0000_0000_0000,
        (n == 7 && hbit == 0x80 && prefix == 0) || (n == 3 && hbit == 0x08 && (prefix == 0x20 || prefix == 0x30)) || (
            n == 5 && hbit == 0x20 && prefix == 0x40),
    ensures
        repr_reads_back(s, string_repr(s, n, prefix, hbit, use_huffman) + rest, string_repr(s, n, prefix, hbit, use_huffman).len(), n, hbit),
{
    if use_huffman && huffman_encoding(s).len() < s.len() {
        lemma_repr_roundtrip_huffman(s, rest, n, prefix, hbit);
    } else {
        lemma_repr_roundtrip_plain(s, rest, n, prefix, hbit, use_huffman);
    }
}

/// A field value, Huffman-coded or not, reads back as itself.
pub proof fn lemma_string_roundtrip(s: Seq<u8>, rest: Seq<u8>, use_huffman: bool)
    requires
        s.len() < 0x4000_0000_0000_0000,
    ensures
        string_decoding(value_repr(s, use_huffman) + rest) == Ok::<(Seq<u8>, nat), QpackError>(
            (s, value_repr(s, use_huffman).len()),
        ),
{
    lemma_repr_roundtrip(s, rest, 7, 0, 0x80, use_huffman);
}

/// A literal-name line reads back as its header (the bytes after the name
/// and value aside).
proof fn lemma_literal_roundtrip(h: HeaderView, rest: Seq<u8>, use_huffman: bool)
    requires
        h.name.len() < 0x4000_0000_0000_0000,
        h.value.len() < 0x4000_0000_0000_0000,
    ensures
        literal_name_decoding(literal_line(h, use_huffman) + rest) == Ok::<(HeaderView, nat), QpackError>(
            (line_view(h.name, h.value), literal_line(h, use_huffman).len()),
        ),
        (literal_line(h, use_huffman) + rest)[0] & 0x80 == 0,
        (literal_line(h, use_huffman) + rest)[0] & 0x40 == 0,
        (literal_line(h, use_huffman) + rest)[0] & 0x20 != 0,
{
    let prefix: u8 = if h.never_indexed { 0x30 } else { 0x20 };
    let nr = string_repr(h.name, 3, prefix, 0x08, use_huffman);
    let v = value_repr(h.value, use_huffman);
    let d = literal_line(h, use_huffman) + rest;
    assert(d =~= nr + (v + rest));
    lemma_repr_roundtrip(h.name, v + rest, 3, prefix, 0x08, use_huffman);
    assert(d.skip(nr.len() as int) =~= v + rest);
    lemma_string_roundtrip(h.value, rest, use_huffman);
}

/// An Indexed Field Line for static entry `k` (`11xxxxxx`, Section 4.5.2)
/// reads as that entry of the static table (Appendix A), name and value,
/// and takes the whole line, for every entry of the table.
#[verifier::rlimit(50)]
pub proof fn lemma_static_indexed_line(k: nat, rest: Seq<u8>)
    requires
        k < STATIC_TABLE_LEN,
    ensures
        static_line_decoding(prefix_int_encoding(k, 6, 0xc0) + rest) == Ok::<(HeaderView, nat), QpackError>(
            (
                HeaderView { name: static_name(k as int), value: static_value(k as int), never_indexed: false },
                prefix_int_encoding(k, 6, 0xc0).len(),
            ),
        ),
{
    reveal(static_line_decoding);
    let e = prefix_int_encoding(k, 6, 0xc0);
    let d = e + rest;
    assert(pow128(9) == 0x8000_0000_0000_0000) by {
        reveal_with_fuel(pow128, 10);
    }
    assert(prefix_max(6) == 63);
    assert(prefix_max(6) + 1 == 64);
    assert(0xc0u8 as nat % 64 == 0);
    lemma_prefix_int_roundtrip(k, 6, 0xc0, rest);
    let x: u8 = if k < 63 { k as u8 } else { 63u8 };
    assert(d[0] == (0xc0u8 | x));
    assert((0xc0u8 | x) & 0x80 != 0 && (0xc0u8 | x) & 0x40 != 0) by (bit_vector)
        requires
            x <= 63,
    ;
}

/// An indexed static line reads back as the entry.
proof fn lemma_indexed_roundtrip(k: int, h: HeaderView, rest: Seq<u8>)
    requires
        is_first_static_exact(h.name, h.value, k),
    ensures
        static_line_decoding(static_indexed_line(k as nat) + rest) == Ok::<(HeaderView, nat), QpackError>(
            (line_view(h.name, h.value), static_indexed_line(k as nat).len()),
        ),
{
    lemma_static_indexed_line(k as nat, rest);
    assert(static_exact(k, h.name, h.value));
}

/// A Literal Field Line with a static Name Reference to entry `k`
/// (`01N1xxxx`, Section 4.5.4) and the literal value `v` reads as the name
/// of that entry of the static table together with `v`, and takes the
/// whole line, for every entry of the table; the entry's own value plays
/// no part.
#[verifier::rlimit(50)]
pub proof fn lemma_static_name_ref_line(k: nat, v: Seq<u8>, never_indexed: bool, use_huffman: bool, rest: Seq<u8>)
    requires
        k < STATIC_TABLE_LEN,
        v.len() < 0x4000_0000_0000_0000,
    ensures
        ({
            let line = prefix_int_encoding(k, 4, if never_indexed { 0x70 } else { 0x50 }) + value_repr(v, use_huffman);
            static_line_decoding(line + rest) == Ok::<(HeaderView, nat), QpackError>(
                (HeaderView { name: static_name(k as int), value: v, never_indexed: false }, line.len()),
            )
        }),
{
    reveal(static_line_decoding);
    let prefix: u8 = if never_indexed { 0x70 } else { 0x50 };
    let p = prefix_int_encoding(k, 4, prefix);
    let vr = value_repr(v, use_huffman);
    let d = p + vr + rest;
    assert(pow128(9) == 0x8000_0000_0000_0000) by {
        reveal_with_fuel(pow128, 10);
    }
    assert(prefix_max(4) == 15);
    assert(prefix as nat % 16 == 0);
    lemma_prefix_int_roundtrip(k, 4, prefix, vr + rest);
    assert(d =~= p + (vr + rest));
    let x: u8 = if k < 15 { k as u8 } else { 15u8 };
    assert(d[0] == (prefix | x));
    assert((prefix | x) & 0x80 == 0 && (prefix | x) & 0x40 != 0 && (prefix | x) & 0x10 != 0) by (bit_vector)
        requires
            x <= 15,
            prefix == 0x70 || prefix == 0x50,
    ;
    assert(d.skip(p.len() as int) =~= vr + rest);
    lemma_string_roundtrip(v, rest, use_huffman);
}

/// A static name-reference line reads back as its header.
proof fn lemma_name_ref_roundtrip(k: int, h: HeaderView, rest: Seq<u8>, use_huffman: bool)
    requires
        is_first_static_name(h.name, k),
        h.value.len() < 0x4000_0000_0000_0000,
    ensures
        static_line_decoding(static_name_line(k as nat, h, use_huffman) + rest) == Ok::<(HeaderView, nat), QpackError>(
            (line_view(h.name, h.value), static_name_line(k as nat, h, use_huffman).len()),
        ),
{
    lemma_static_name_ref_line(k as nat, h.value, h.never_indexed, use_huffman, rest);
}

/// A literal-name line reads back as its header.
#[verifier::rlimit(50)]
proof fn lemma_literal_line_roundtrip(h: HeaderView, rest: Seq<u8>, use_huffman: bool)
    requires
        h.name.len() < 0x4000_0000_0000_0000,
        h.value.len() < 0x4000_0000_0000_0000,
    ensures
        static_line_decoding(literal_line(h, use_huffman) + rest) == Ok::<(HeaderView, nat), QpackError>(
            (line_view(h.name, h.value), literal_line(h, use_huffman).len()),
        ),
{
    reveal(static_line_decoding);
    lemma_literal_roundtrip(h, rest, use_huffman);
}

/// A static-table line reads back as its header.
pub proof fn lemma_static_line_roundtrip(h: HeaderView, rest: Seq<u8>, use_huffman: bool)
    requires
        h.name.len() < 0x4000_0000_0000_0000,
        h.value.len() < 0x4000_0000_0000_0000,
    ensures
        static_line_decoding(static_line_encoding(h, use_huffman) + rest) == Ok::<(HeaderView, nat), QpackError>(
            (line_view(h.name, h.value), static_line_encoding(h, use_huffman).len()),
        ),
{
    reveal(static_exact_index);
    reveal(static_name_index);
    if exists|k: int| is_first_static_exact(h.name, h.value, k) {
        let k = choose|k: int| is_first_static_exact(h.name, h.value, k);
        lemma_indexed_roundtrip(k, h, rest);
    } else if exists|k: int| is_first_static_name(h.name, k) {
        let k = choose|k: int| is_first_static_name(h.name, k);
        lemma_name_ref_roundtrip(k, h, rest, use_huffman);
    } else {
        lemma_literal_line_roundtrip(h, rest, use_huffman);
    }
}

/// Static-table lines read back as their headers, within the size limit.
proof fn lemma_static_lines_roundtrip(hs: Seq<HeaderView>, total: nat, max: nat, use_huffman: bool)
    requires
        lengths_ok(hs),
        total + lines_size(hs) <= max,
    ensures
        section_lines(lines_encoding(hs, static_line_fn(use_huffman)), total, max, read_line_fn()) == Ok::<
            Seq<HeaderView>,
            QpackError,
        >(decoded_views(hs)),
    decreases hs.len(),
{
    let f = static_line_fn(use_huffman);
    let d = lines_encoding(hs, f);
    if hs.len() == 0 {
        assert(d =~= Seq::<u8>::empty());
        assert(decoded_views(hs) =~= Seq::<HeaderView>::empty());
    } else {
        lemma_lines_front(hs, f);
        let h = hs[0];
        let tail = lines_encoding(hs.skip(1), f);
        assert(lengths_ok(hs.skip(1))) by {
            assert forall|i: int| 0 <= i < hs.skip(1).len() implies (#[trigger] hs.skip(1)[i]).name.len()
                < 0x4000_0000_0000_0000 && hs.skip(1)[i].value.len() < 0x4000_0000_0000_0000 by {
                assert(hs.skip(1)[i] == hs[i + 1]);
            }
        }
        assert(h.name.len() < 0x4000_0000_0000_0000 && h.value.len() < 0x4000_0000_0000_0000);
        lemma_static_line_roundtrip(h, tail, use_huffman);
        let e = static_line_encoding(h, use_huffman);
        assert(f(h) == e);
        assert(d == e + tail);
        assert(read_line_fn()(d) == static_line_decoding(d));
        lemma_static_line_nonempty(h, use_huffman);
        assert(d.skip(e.len() as int) =~= tail);
        lemma_static_lines_roundtrip(hs.skip(1), total + line_size(line_view(h.name, h.value)), max, use_huffman);
        assert(decoded_views(hs) =~= seq![line_view(h.name, h.value)] + decoded_views(hs.skip(1)));
    }
}

/// A static line takes at least one byte.
pub proof fn lemma_static_line_nonempty(h: HeaderView, use_huffman: bool)
    ensures
        static_line_encoding(h, use_huffman).len() >= 1,
{
    reveal(static_exact_index);
    reveal(static_name_index);
}

/// A field section the encoder writes with the static table, with Huffman
/// coding or without, reads back, through the static decoder, as the names
/// and values it was made from, whenever their section size is within the
/// decoder's limit.
pub proof fn lemma_static_section_roundtrip(hs: Seq<HeaderView>, max: u64, use_huffman: bool)
    requires
        lengths_ok(hs),
        lines_size(hs) <= max,
    ensures
        static_section_decoding(static_section_encoding(hs, use_huffman), max) == Ok::<Seq<HeaderView>, QpackError>(
            decoded_views(hs),
        ),
{
    let lines = lines_encoding(hs, static_line_fn(use_huffman));
    let d = static_section_encoding(hs, use_huffman);
    assert(d == seq![0x00u8, 0x00u8] + lines);
    assert(pow128(9) == 0x8000_0000_0000_0000) by {
        reveal_with_fuel(pow128, 10);
    }
    assert((0u8 | 0u8) == 0u8) by (bit_vector);
    assert(prefix_max(8) == 255 && prefix_max(7) == 127);
    lemma_prefix_int_roundtrip(0, 8, 0, seq![0x00u8] + lines);
    assert(prefix_int_encoding(0, 8, 0) =~= seq![0x00u8]);
    assert(d =~= prefix_int_encoding(0, 8, 0) + (seq![0x00u8] + lines));
    lemma_prefix_int_roundtrip(0, 7, 0, lines);
    assert(prefix_int_encoding(0, 7, 0) =~= seq![0x00u8]);
    assert(d.skip(1) =~= prefix_int_encoding(0, 7, 0) + lines);
    assert(d.skip(2) =~= lines);
    lemma_static_lines_roundtrip(hs, 0, max as nat, use_huffman);
}

} // verus!
