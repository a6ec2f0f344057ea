//! What a dynamic decoder reads back from a field section an encoder wrote
//! against the same dynamic table.

use vstd::prelude::*;
use crate::error::QpackError;
use crate::qpack::header::HeaderView;
use crate::qpack::integer::{prefix_int_encoding, prefix_int_decoding, prefix_max, pow128,
    lemma_prefix_int_roundtrip};
use crate::qpack::dynamic_table::{DynamicTableView, table_wf, find_outcome, entry_at_absolute, dynamic_exact,
    dynamic_name, is_first_exact, is_first_name, entry_size, entries_size};
use crate::qpack::encoder::{dynamic_line_encoding, dynamic_indexed_line, dynamic_name_line, static_line_encoding,
    static_exact_index, value_repr, lines_encoding, dynamic_line_fn, required_insert_count, ric_encoding,
    dynamic_section_encoding};
use crate::qpack::decoder::{dynamic_line_decoding, static_line_decoding, relative_ref, line_view, LineResult,
    section_lines, line_size, ric_decoding, base_of, dynamic_section_decoding, DynamicDecoderView,
    dynamic_line_fn as read_dynamic_fn};
use crate::qpack::roundtrip::{lemma_string_roundtrip, lemma_static_line_roundtrip, lemma_lines_front, lengths_ok,
    lines_size, decoded_views};

verus! {

/// Two tables hold the same entries under the same numbering.
pub open spec fn same_entries(a: DynamicTableView, b: DynamicTableView) -> bool {
    &&& a.entries == b.entries
    &&& a.insert_count == b.insert_count
    &&& a.dropped_count == b.dropped_count
}

/// The entries a search finds are in the table.
proof fn lemma_found_in_table(t: DynamicTableView, name: Seq<u8>, value: Seq<u8>)
    requires
        table_wf(t),
    ensures
        find_outcome(t, name, value).0 matches Some(a) ==> entry_at_absolute(t, a) matches Some(e) && e.name == name
            && e.value == value && t.dropped_count <= a < t.insert_count,
        find_outcome(t, name, value).1 matches Some(a) ==> entry_at_absolute(t, a) matches Some(e) && e.name == name
            && t.dropped_count <= a < t.insert_count,
{
    if exists|i: int| is_first_exact(t.entries, name, value, i) {
        let i = choose|i: int| is_first_exact(t.entries, name, value, i);
        assert(t.entries[i].absolute_index == t.insert_count - 1 - i);
        assert(t.insert_count - 1 - (t.insert_count - 1 - i) == i);
    } else if exists|i: int| is_first_name(t.entries, name, i) {
        let i = choose|i: int| is_first_name(t.entries, name, i);
        assert(t.entries[i].absolute_index == t.insert_count - 1 - i);
        assert(t.insert_count - 1 - (t.insert_count - 1 - i) == i);
    }
}

/// The first byte of a prefixed integer holds the prefix and the low bits.
proof fn lemma_first_byte(value: nat, n: nat, prefix: u8, rest: Seq<u8>)
    requires
        n == 3 || n == 4 || n == 6,
    ensures
        (prefix_int_encoding(value, n, prefix) + rest)[0] == (prefix | (if value < prefix_max(n) {
            value as u8
        } else {
            prefix_max(n) as u8
        })),
        prefix_int_encoding(value, n, prefix).len() > 0,
{
}

/// Where the static decoder reads a line, the dynamic one reads it alike.
proof fn lemma_static_agrees(t: DynamicTableView, base: u64, ric: u64, d: Seq<u8>)
    requires
        static_line_decoding(d) is Ok,
    ensures
        dynamic_line_decoding(t, base, ric, d) == static_line_decoding(d),
{
    reveal(static_line_decoding);
    reveal(dynamic_line_decoding);
}

/// An Indexed Field Line for a dynamic entry below the base reads back as
/// the entry.
#[verifier::rlimit(50)]
proof fn lemma_dynamic_indexed_roundtrip(t: DynamicTableView, dt: DynamicTableView, ric: u64, a: u64, h: HeaderView, rest: Seq<u8>)
    requires
        table_wf(t),
        same_entries(t, dt),
        a < ric,
        ric < 0x4000_0000_0000_0000,
        entry_at_absolute(t, a) matches Some(e) && e.name == h.name && e.value == h.value,
    ensures
        dynamic_line_decoding(dt, ric, ric, dynamic_indexed_line(a, ric) + rest) == Ok::<(HeaderView, nat), QpackError>(
            (line_view(h.name, h.value), dynamic_indexed_line(a, ric).len()),
        ),
{
    reveal(dynamic_line_decoding);
    let i = (ric - a - 1) as u64;
    let e = dynamic_indexed_line(a, ric);
    let d = e + rest;
    assert(e == prefix_int_encoding(i as nat, 6, 0x80));
    assert(pow128(9) == 0x8000_0000_0000_0000) by {
        reveal_with_fuel(pow128, 10);
    }
    assert(prefix_max(6) + 1 == 64);
    assert(0x80u8 as nat % 64 == 0);
    lemma_prefix_int_roundtrip(i as nat, 6, 0x80, rest);
    lemma_first_byte(i as nat, 6, 0x80, rest);
    let x: u8 = if i < 63 { i as u8 } else { 63u8 };
    assert(d[0] == (0x80u8 | x));
    assert((0x80u8 | x) & 0x80 != 0 && (0x80u8 | x) & 0x40 == 0) by (bit_vector)
        requires
            x <= 63,
    ;
    assert(ric - i - 1 == a);
    assert(relative_ref(dt, ric, ric, i) == Ok::<_, QpackError>(entry_at_absolute(t, a)->0));
}

/// A Literal Field Line with a dynamic name below the base reads back as
/// the header.
#[verifier::rlimit(50)]
proof fn lemma_dynamic_name_roundtrip(t: DynamicTableView, dt: DynamicTableView, ric: u64, a: u64, h: HeaderView, rest: Seq<u8>, use_huffman: bool)
    requires
        table_wf(t),
        same_entries(t, dt),
        a < ric,
        ric < 0x4000_0000_0000_0000,
        h.value.len() < 0x4000_0000_0000_0000,
        entry_at_absolute(t, a) matches Some(e) && e.name == h.name,
    ensures
        dynamic_line_decoding(dt, ric, ric, dynamic_name_line(a, ric, h.value, h.never_indexed, use_huffman) + rest)
            == Ok::<(HeaderView, nat), QpackError>(
            (line_view(h.name, h.value), dynamic_name_line(a, ric, h.value, h.never_indexed, use_huffman).len()),
        ),
{
    reveal(dynamic_line_decoding);
    let i = (ric - a - 1) as u64;
    let prefix: u8 = if h.never_indexed { 0x60 } else { 0x40 };
    let p = prefix_int_encoding(i as nat, 4, prefix);
    let v = value_repr(h.value, use_huffman);
    let e = dynamic_name_line(a, ric, h.value, h.never_indexed, use_huffman);
    assert(e == p + v);
    let d = e + rest;
    assert(d =~= p + (v + rest));
    assert(pow128(9) == 0x8000_0000_0000_0000) by {
        reveal_with_fuel(pow128, 10);
    }
    assert(prefix_max(4) + 1 == 16);
    assert(prefix as nat % 16 == 0);
    lemma_prefix_int_roundtrip(i as nat, 4, prefix, v + rest);
    lemma_first_byte(i as nat, 4, prefix, v + rest);
    let x: u8 = if i < 15 { i as u8 } else { 15u8 };
    assert(d[0] == (prefix | x));
    assert((prefix | x) & 0x80 == 0 && (prefix | x) & 0x40 != 0 && (prefix | x) & 0x10 == 0) by (bit_vector)
        requires
            prefix == 0x60 || prefix == 0x40,
            x <= 15,
    ;
    assert(ric - i - 1 == a);
    assert(relative_ref(dt, ric, ric, i) == Ok::<_, QpackError>(entry_at_absolute(t, a)->0));
    assert(d.skip(p.len() as int) =~= v + rest);
    lemma_string_roundtrip(h.value, rest, use_huffman);
}

/// A field line the encoder writes against its table, with Base equal to
/// the Required Insert Count, reads back as its header through a decoder
/// that holds the same entries, where the entry it refers to lies below the
/// Required Insert Count.
proof fn lemma_dynamic_line_roundtrip(t: DynamicTableView, dt: DynamicTableView, ric: u64, h: HeaderView, rest: Seq<u8>, use_huffman: bool)
    requires
        table_wf(t),
        same_entries(t, dt),
        ric < 0x4000_0000_0000_0000,
        h.name.len() < 0x4000_0000_0000_0000,
        h.value.len() < 0x4000_0000_0000_0000,
        find_outcome(t, h.name, h.value).1 matches Some(a) ==> a < ric,
    ensures
        dynamic_line_decoding(dt, ric, ric, dynamic_line_encoding(t, ric, h, use_huffman) + rest) == Ok::<
            (HeaderView, nat),
            QpackError,
        >((line_view(h.name, h.value), dynamic_line_encoding(t, ric, h, use_huffman).len())),
        dynamic_line_encoding(t, ric, h, use_huffman).len() >= 1,
{
    lemma_found_in_table(t, h.name, h.value);
    let (de, dn) = find_outcome(t, h.name, h.value);
    match de {
        Some(a) => {
            lemma_dynamic_indexed_roundtrip(t, dt, ric, a, h, rest);
            assert(dynamic_line_encoding(t, ric, h, use_huffman) == dynamic_indexed_line(a, ric));
            assert(a < ric);
            lemma_first_byte((ric - a - 1) as nat, 6, 0x80, rest);
        },
        None => {
            if static_exact_index(h.name, h.value) is Some || dn is None {
                assert(dynamic_line_encoding(t, ric, h, use_huffman) == static_line_encoding(h, use_huffman));
                lemma_static_line_roundtrip(h, rest, use_huffman);
                lemma_static_agrees(dt, ric, ric, static_line_encoding(h, use_huffman) + rest);
                crate::qpack::roundtrip::lemma_static_line_nonempty(h, use_huffman);
            } else {
                let a = dn->0;
                assert(dynamic_line_encoding(t, ric, h, use_huffman) == dynamic_name_line(
                    a,
                    ric,
                    h.value,
                    h.never_indexed,
                    use_huffman,
                ));
                lemma_dynamic_name_roundtrip(t, dt, ric, a, h, rest, use_huffman);
                let prefix: u8 = if h.never_indexed { 0x60 } else { 0x40 };
                lemma_first_byte((ric - a - 1) as nat, 4, prefix, value_repr(h.value, use_huffman));
            }
        },
    }
}

/// The lines of `hs`, as the encoder writes them against its table with
/// Base equal to `ric`, read back as their headers, within the size limit.
proof fn lemma_dynamic_lines_roundtrip(
    t: DynamicTableView,
    dt: DynamicTableView,
    ric: u64,
    hs: Seq<HeaderView>,
    total: nat,
    max: nat,
    use_huffman: bool,
)
    requires
        table_wf(t),
        same_entries(t, dt),
        ric < 0x4000_0000_0000_0000,
        lengths_ok(hs),
        total + lines_size(hs) <= max,
        forall|i: int| 0 <= i < hs.len() ==> (find_outcome(t, (#[trigger] hs[i]).name, hs[i].value).1 matches Some(a)
            ==> a < ric),
    ensures
        section_lines(lines_encoding(hs, dynamic_line_fn(t, ric, use_huffman)), total, max, read_dynamic_fn(dt, ric, ric))
            == Ok::<Seq<HeaderView>, QpackError>(decoded_views(hs)),
    decreases hs.len(),
{
    let f = dynamic_line_fn(t, ric, use_huffman);
    let d = lines_encoding(hs, f);
    if hs.len() == 0 {
        assert(d =~= Seq::<u8>::empty());
        assert(decoded_views(hs) =~= Seq::<HeaderView>::empty());
    } else {
        lemma_lines_front(hs, f);
        let h = hs[0];
        let tail = lines_encoding(hs.skip(1), f);
        assert(lengths_ok(hs.skip(1))) by {
            assert forall|i: int| 0 <= i < hs.skip(1).len() implies (#[trigger] hs.skip(1)[i]).name.len()
                < 0x4000_0000_0000_0000 && hs.skip(1)[i].value.len() < 0x4000_0000_0000_0000 by {
                assert(hs.skip(1)[i] == hs[i + 1]);
            }
        }
        assert forall|i: int| 0 <= i < hs.skip(1).len() implies (find_outcome(
            t,
            (#[trigger] hs.skip(1)[i]).name,
            hs.skip(1)[i].value,
        ).1 matches Some(a) ==> a < ric) by {
            assert(hs.skip(1)[i] == hs[i + 1]);
        }
        assert(h.name.len() < 0x4000_0000_0000_0000 && h.value.len() < 0x4000_0000_0000_0000);
        assert(find_outcome(t, h.name, h.value).1 matches Some(a) ==> a < ric);
        lemma_dynamic_line_roundtrip(t, dt, ric, h, tail, use_huffman);
        let e = dynamic_line_encoding(t, ric, h, use_huffman);
        assert(f(h) == e);
        assert(d == e + tail);
        assert(read_dynamic_fn(dt, ric, ric)(d) == dynamic_line_decoding(dt, ric, ric, d));
        assert(d.skip(e.len() as int) =~= tail);
        lemma_dynamic_lines_roundtrip(t, dt, ric, hs.skip(1), total + line_size(line_view(h.name, h.value)), max, use_huffman);
        assert(decoded_views(hs) =~= seq![line_view(h.name, h.value)] + decoded_views(hs.skip(1)));
    }
}

/// Every entry a line refers to lies below the Required Insert Count, and
/// that count, where not 0, is one past an entry in the table.
proof fn lemma_ric_covers(t: DynamicTableView, hs: Seq<HeaderView>)
    requires
        table_wf(t),
    ensures
        forall|i: int| 0 <= i < hs.len() ==> (find_outcome(t, (#[trigger] hs[i]).name, hs[i].value).1 matches Some(a)
            ==> a < required_insert_count(t, hs)),
        required_insert_count(t, hs) == 0 || t.dropped_count < required_insert_count(t, hs) <= t.insert_count,
    decreases hs.len(),
{
    if hs.len() > 0 {
        let init = hs.drop_last();
        lemma_ric_covers(t, init);
        lemma_found_in_table(t, hs.last().name, hs.last().value);
        assert forall|i: int| 0 <= i < hs.len() implies (find_outcome(t, (#[trigger] hs[i]).name, hs[i].value).1 matches Some(
            a,
        ) ==> a < required_insert_count(t, hs)) by {
            if i < hs.len() - 1 {
                assert(hs[i] == init[i]);
            }
        }
    }
}

/// Each entry takes at least 32 bytes.
proof fn lemma_entries_size_min(s: Seq<crate::qpack::dynamic_table::DynamicEntryView>)
    ensures
        entries_size(s) >= 32 * s.len(),
    decreases s.len(),
{
    if s.len() > 0 {
        lemma_entries_size_min(s.drop_last());
    }
}

/// A multiple of `f` strictly between `-f` and `f` is 0.
proof fn lemma_small_multiple(k: int, f: int)
    requires
        f > 0,
        -f < k * f < f,
    ensures
        k == 0,
{
    if k > 0 {
        assert(k * f >= f) by (nonlinear_arith)
            requires
                k >= 1,
                f > 0,
        ;
    } else if k < 0 {
        assert(k * f <= -f) by (nonlinear_arith)
            requires
                k <= -1,
                f > 0,
        ;
    }
}

/// A Required Insert Count, encoded by the encoder, decodes back to itself
/// at a decoder with the same maximum table capacity and `insert_count`
/// inserts received: always for 0, and otherwise where the table allows
/// at least one entry (`M = max_table_capacity / 32 > 0`) and the count
/// lies within `M` of the decoder's (`insert_count < ric + M` and
/// `ric <= insert_count + M`, Section 4.5.1.1).
pub proof fn lemma_ric_roundtrip(ric: u64, max_table_capacity: u64, insert_count: u64)
    requires
        ric == 0 || ({
            let m = max_table_capacity / 32;
            &&& m > 0
            &&& insert_count < ric + m
            &&& ric <= insert_count + m
        }),
    ensures
        ric_decoding(0, max_table_capacity, insert_count) == Ok::<u64, QpackError>(0),
        ric_decoding(ric_encoding(ric as nat, max_table_capacity), max_table_capacity, insert_count) == Ok::<
            u64,
            QpackError,
        >(ric),
{
    if ric > 0 {
        let m = (max_table_capacity / 32) as int;
        let f = 2 * m;
        let enc = ric_encoding(ric as nat, max_table_capacity);
        assert(m >= 1);
        vstd::arithmetic::div_mod::lemma_fundamental_div_mod(ric as int, f);
        vstd::arithmetic::div_mod::lemma_mod_bound(ric as int, f);
        let rr = ric as int % f;
        let qr = ric as int / f;
        assert(enc == rr + 1);
        let mv = insert_count + m;
        vstd::arithmetic::div_mod::lemma_fundamental_div_mod(mv, f);
        vstd::arithmetic::div_mod::lemma_mod_bound(mv, f);
        let q = mv / f;
        let r = mv % f;
        let req0 = q * f + enc - 1;
        assert(req0 == q * f + rr);
        assert(mv - f < ric <= mv);
        assert(req0 - ric == (q - qr) * f) by (nonlinear_arith)
            requires
                req0 == q * f + rr,
                ric == f * qr + rr,
        ;
        if req0 > mv {
            assert(req0 - f - ric == (q - qr - 1) * f) by (nonlinear_arith)
                requires
                    req0 - ric == (q - qr) * f,
            ;
            assert(mv == f * q + r);
            lemma_small_multiple(q - qr - 1, f);
            assert(req0 - f == ric);
        } else {
            assert(mv == f * q + r);
            lemma_small_multiple(q - qr, f);
            assert(req0 == ric);
        }
    }
}

/// A field section the encoder writes against its dynamic table reads back,
/// through a dynamic decoder that holds the same entries and allows the
/// same capacity, as the names and values it was made from, with the
/// Required Insert Count the encoder recorded; where the table fits that
/// capacity, its insert count stays below 2^62, and the section size is
/// within the decoder's limit.
pub proof fn lemma_dynamic_section_roundtrip(
    t: DynamicTableView,
    max_table_capacity: u64,
    hs: Seq<HeaderView>,
    use_huffman: bool,
    v: DynamicDecoderView,
)
    requires
        table_wf(t),
        same_entries(t, v.table),
        t.current_size <= max_table_capacity,
        v.max_table_capacity == max_table_capacity,
        t.insert_count < 0x4000_0000_0000_0000,
        lengths_ok(hs),
        lines_size(hs) <= v.max_field_section_size,
    ensures
        dynamic_section_decoding(v, dynamic_section_encoding(t, max_table_capacity, hs, use_huffman)) == (
            Some(required_insert_count(t, hs) as u64),
            Ok::<Option<Seq<HeaderView>>, QpackError>(Some(decoded_views(hs))),
        ),
{
    let ric = required_insert_count(t, hs);
    lemma_ric_covers(t, hs);
    lemma_entries_size_min(t.entries);
    assert(t.entries.len() <= max_table_capacity / 32);
    lemma_ric_roundtrip(ric as u64, max_table_capacity, t.insert_count);
    let enc = ric_encoding(ric, max_table_capacity);
    let p1 = prefix_int_encoding(enc, 8, 0x00);
    let lines = lines_encoding(hs, dynamic_line_fn(t, ric as u64, use_huffman));
    let d = dynamic_section_encoding(t, max_table_capacity, hs, use_huffman);
    assert(d == p1 + seq![0x00u8] + lines);
    assert(pow128(9) == 0x8000_0000_0000_0000) by {
        reveal_with_fuel(pow128, 10);
    }
    assert(prefix_max(8) == 255 && prefix_max(7) == 127);
    assert(enc <= 2 * (max_table_capacity / 32));
    lemma_prefix_int_roundtrip(enc, 8, 0x00, seq![0x00u8] + lines);
    assert(d =~= p1 + (seq![0x00u8] + lines));
    assert((0u8 | 0u8) == 0u8) by (bit_vector);
    lemma_prefix_int_roundtrip(0, 7, 0, lines);
    assert(prefix_int_encoding(0, 7, 0) =~= seq![0x00u8]);
    assert(d.skip(p1.len() as int) =~= prefix_int_encoding(0, 7, 0) + lines);
    assert(d[p1.len() as int] == 0x00u8);
    assert(0x00u8 & 0x80 == 0) by (bit_vector);
    assert(base_of(ric as u64, false, 0) == Some(ric as u64));
    assert(d.skip((p1.len() + 1) as int) =~= lines);
    lemma_dynamic_lines_roundtrip(t, v.table, ric as u64, hs, 0, v.max_field_section_size as nat, use_huffman);
}

/// A Literal Field Line with Post-Base Name Reference (`0000Nxxx`, Section
/// 4.5.5) carrying post-base index `p` and the literal value `v` reads as
/// the name of the entry at absolute index `base + p` together with `v`,
/// and takes the whole line, where that entry is in the table and lies
/// below the Required Insert Count; the table's value plays no part.
#[verifier::rlimit(50)]
#[verifier::spinoff_prover]
pub proof fn lemma_post_base_name_line(
    t: DynamicTableView,
    base: u64,
    ric: u64,
    p: u64,
    v: Seq<u8>,
    never_indexed: bool,
    use_huffman: bool,
    rest: Seq<u8>,
)
    requires
        base + p < ric,
        t.dropped_count <= base + p < t.insert_count,
        p < 0x4000_0000_0000_0000,
        v.len() < 0x4000_0000_0000_0000,
    ensures
        ({
            let line = prefix_int_encoding(p as nat, 3, if never_indexed { 0x08 } else { 0x00 }) + value_repr(
                v,
                use_huffman,
            );
            dynamic_line_decoding(t, base, ric, line + rest) == Ok::<(HeaderView, nat), QpackError>(
                (
                    HeaderView {
                        name: t.entries[t.insert_count - 1 - (base + p)].name,
                        value: v,
                        never_indexed: false,
                    },
                    line.len(),
                ),
            )
        }),
{
    reveal(dynamic_line_decoding);
    let prefix: u8 = if never_indexed { 0x08 } else { 0x00 };
    let pe = prefix_int_encoding(p as nat, 3, prefix);
    let vr = value_repr(v, use_huffman);
    let d = pe + vr + rest;
    assert(d =~= pe + (vr + rest));
    assert(pow128(9) == 0x8000_0000_0000_0000) by {
        reveal_with_fuel(pow128, 10);
    }
    assert(prefix_max(3) + 1 == 8);
    assert(prefix as nat % 8 == 0);
    lemma_prefix_int_roundtrip(p as nat, 3, prefix, vr + rest);
    lemma_first_byte(p as nat, 3, prefix, vr + rest);
    let x: u8 = if p < 7 { p as u8 } else { 7u8 };
    assert(d[0] == (prefix | x));
    assert((prefix | x) & 0x80 == 0 && (prefix | x) & 0x40 == 0 && (prefix | x) & 0x20 == 0 && (prefix | x) & 0x10
        == 0) by (bit_vector)
        requires
            prefix == 0x08 || prefix == 0x00,
            x <= 7,
    ;
    assert(d.skip(pe.len() as int) =~= vr + rest);
    lemma_string_roundtrip(v, rest, use_huffman);
}

/// Which representation a first byte with a small integer in its low bits
/// selects.
proof fn lemma_line_kind_bits(x: u8)
    by (bit_vector)
    ensures
        x <= 63 ==> (0x80u8 | x) & 0x80 != 0 && (0x80u8 | x) & 0x40 == 0,
        x <= 15 ==> (0x10u8 | x) & 0x80 == 0 && (0x10u8 | x) & 0x40 == 0 && (0x10u8 | x) & 0x20 == 0 && (0x10u8
            | x) & 0x10 != 0,
        x <= 15 ==> (0x40u8 | x) & 0x80 == 0 && (0x40u8 | x) & 0x40 != 0 && (0x40u8 | x) & 0x10 == 0,
        x <= 15 ==> (0x60u8 | x) & 0x80 == 0 && (0x60u8 | x) & 0x40 != 0 && (0x60u8 | x) & 0x10 == 0,
{
}

/// An Indexed Field Line with dynamic relative index `i` (`10xxxxxx`,
/// Section 4.5.2) reads as the entry at absolute index `base - 1 - i`,
/// name and value, and takes the whole line, where that entry is in the
/// table and lies below the Required Insert Count.
pub proof fn lemma_relative_indexed_line(t: DynamicTableView, base: u64, ric: u64, i: u64, rest: Seq<u8>)
    requires
        i < base,
        base - 1 - i < ric,
        t.dropped_count <= base - 1 - i < t.insert_count,
        i < 0x4000_0000_0000_0000,
    ensures
        ({
            let line = prefix_int_encoding(i as nat, 6, 0x80);
            let e = t.entries[t.insert_count - 1 - (base - 1 - i)];
            dynamic_line_decoding(t, base, ric, line + rest) == Ok::<(HeaderView, nat), QpackError>(
                (HeaderView { name: e.name, value: e.value, never_indexed: false }, line.len()),
            )
        }),
{
    reveal(dynamic_line_decoding);
    let d = prefix_int_encoding(i as nat, 6, 0x80) + rest;
    assert(pow128(9) == 0x8000_0000_0000_0000) by {
        reveal_with_fuel(pow128, 10);
    }
    assert(prefix_max(6) + 1 == 64);
    assert(0x80u8 as nat % 64 == 0);
    lemma_prefix_int_roundtrip(i as nat, 6, 0x80, rest);
    lemma_first_byte(i as nat, 6, 0x80, rest);
    let x: u8 = if i < 63 { i as u8 } else { 63u8 };
    assert(d[0] == (0x80u8 | x));
    lemma_line_kind_bits(x);
}

/// An Indexed Field Line with post-base index `p` (`0001xxxx`, Section
/// 4.5.3) reads as the entry at absolute index `base + p`, name and value,
/// and takes the whole line, where that entry is in the table and lies
/// below the Required Insert Count.
pub proof fn lemma_post_base_indexed_line(t: DynamicTableView, base: u64, ric: u64, p: u64, rest: Seq<u8>)
    requires
        base + p < ric,
        t.dropped_count <= base + p < t.insert_count,
        p < 0x4000_0000_0000_0000,
    ensures
        ({
            let line = prefix_int_encoding(p as nat, 4, 0x10);
            let e = t.entries[t.insert_count - 1 - (base + p)];
            dynamic_line_decoding(t, base, ric, line + rest) == Ok::<(HeaderView, nat), QpackError>(
                (HeaderView { name: e.name, value: e.value, never_indexed: false }, line.len()),
            )
        }),
{
    reveal(dynamic_line_decoding);
    let d = prefix_int_encoding(p as nat, 4, 0x10) + rest;
    assert(pow128(9) == 0x8000_0000_0000_0000) by {
        reveal_with_fuel(pow128, 10);
    }
    assert(prefix_max(4) + 1 == 16);
    assert(0x10u8 as nat % 16 == 0);
    lemma_prefix_int_roundtrip(p as nat, 4, 0x10, rest);
    lemma_first_byte(p as nat, 4, 0x10, rest);
    let x: u8 = if p < 15 { p as u8 } else { 15u8 };
    assert(d[0] == (0x10u8 | x));
    lemma_line_kind_bits(x);
}

/// A Literal Field Line with a dynamic Name Reference by relative index `i`
/// (`01N0xxxx`, Section 4.5.4) reads as the name of the entry at absolute
/// index `base - 1 - i` together with the literal value `v`, and takes the
/// whole line, where that entry is in the table and lies below the
/// Required Insert Count; the table's value plays no part.
#[verifier::rlimit(50)]
#[verifier::spinoff_prover]
pub proof fn lemma_relative_name_line(
    t: DynamicTableView,
    base: u64,
    ric: u64,
    i: u64,
    v: Seq<u8>,
    never_indexed: bool,
    use_huffman: bool,
    rest: Seq<u8>,
)
    requires
        i < base,
        base - 1 - i < ric,
        t.dropped_count <= base - 1 - i < t.insert_count,
        i < 0x4000_0000_0000_0000,
        v.len() < 0x4000_0000_0000_0000,
    ensures
        ({
            let line = prefix_int_encoding(i as nat, 4, if never_indexed { 0x60 } else { 0x40 }) + value_repr(
                v,
                use_huffman,
            );
            dynamic_line_decoding(t, base, ric, line + rest) == Ok::<(HeaderView, nat), QpackError>(
                (
                    HeaderView {
                        name: t.entries[t.insert_count - 1 - (base - 1 - i)].name,
                        value: v,
                        never_indexed: false,
                    },
                    line.len(),
                ),
            )
        }),
{
    reveal(dynamic_line_decoding);
    let prefix: u8 = if never_indexed { 0x60 } else { 0x40 };
    let pe = prefix_int_encoding(i as nat, 4, prefix);
    let vr = value_repr(v, use_huffman);
    let d = pe + vr + rest;
    assert(d =~= pe + (vr + rest));
    assert(pow128(9) == 0x8000_0000_0000_0000) by {
        reveal_with_fuel(pow128, 10);
    }
    assert(prefix_max(4) + 1 == 16);
    assert(prefix as nat % 16 == 0);
    lemma_prefix_int_roundtrip(i as nat, 4, prefix, vr + rest);
    lemma_first_byte(i as nat, 4, prefix, vr + rest);
    let x: u8 = if i < 15 { i as u8 } else { 15u8 };
    assert(d[0] == (prefix | x));
    lemma_line_kind_bits(x);
    assert(d.skip(pe.len() as int) =~= vr + rest);
    lemma_string_roundtrip(v, rest, use_huffman);
}

} // verus!
