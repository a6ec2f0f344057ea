//! What reading a CONNECT request's header pairs gives back of the request
//! they were made from.

use vstd::prelude::*;
use vstd::utf8::{valid_utf8, decode_utf8, encode_utf8, encode_scalar, encode_utf8_valid_utf8,
    encode_utf8_decode_utf8, valid_utf8_concat};
use crate::webtransport::connect::request::{sf_escape, sf_quoted, sf_join, ConnectRequest, request_pairs,
    request_draft_spec, pair_value_of, pairs_well_formed, text_or_empty, bytes_origin, bytes_wt_available_protocols,
    bytes_h3, bytes_draft02};
use crate::webtransport::connect::draft::{DraftVersion, protocol_value_spec, protocol_h3_chars, protocol_draft02_chars};
use crate::webtransport::connect::connect_error::ConnectError;
use crate::webtransport::connect::sf_parser::string_views;
use crate::qpack::header::{name_method, name_protocol, name_scheme, name_authority, name_path};
use crate::validation::word_connect;

verus! {

/// A char whose UTF-8 form is the one byte of its value.
pub open spec fn is_ascii_char(c: char) -> bool {
    (c as u32) <= 0x7f
}

/// The low seven bits of a value below 128 are the value.
proof fn lemma_low7(x: u32)
    requires
        x <= 0x7f,
    ensures
        (x & 0x7f) == x,
{
    assert((x & 0x7f) == x) by (bit_vector)
        requires
            x <= 0x7f,
    ;
}

/// A byte with its top bit set keeps it under `|`.
proof fn lemma_or_high(p: u8, y: u8)
    requires
        p >= 0x80,
    ensures
        (p | y) >= 0x80,
{
    assert((p | y) >= 0x80) by (bit_vector)
        requires
            p >= 0x80,
    ;
}

/// An ASCII char is coded as its value.
proof fn lemma_ascii_scalar(c: char)
    requires
        is_ascii_char(c),
    ensures
        encode_scalar(c as u32) == seq![(c as u32) as u8],
{
    lemma_low7(c as u32);
}

/// ASCII chars are coded byte for byte.
proof fn lemma_ascii_encode(cs: Seq<char>)
    requires
        forall|i: int| 0 <= i < cs.len() ==> is_ascii_char(#[trigger] cs[i]),
    ensures
        encode_utf8(cs) == cs.map_values(|c: char| (c as u32) as u8),
    decreases cs.len(),
{
    if cs.len() > 0 {
        lemma_ascii_scalar(cs[0]);
        let rest = cs.drop_first();
        assert forall|i: int| 0 <= i < rest.len() implies is_ascii_char(#[trigger] rest[i]) by {
            assert(rest[i] == cs[i + 1]);
        }
        lemma_ascii_encode(rest);
        assert(encode_utf8(cs) =~= cs.map_values(|c: char| (c as u32) as u8));
    }
}

/// The UTF-8 form of a concatenation is that of the parts.
proof fn lemma_encode_concat(x: Seq<char>, y: Seq<char>)
    ensures
        encode_utf8(x + y) == encode_utf8(x) + encode_utf8(y),
    decreases x.len(),
{
    if x.len() == 0 {
        assert(x + y =~= y);
        assert(encode_utf8(x) + encode_utf8(y) =~= encode_utf8(y));
    } else {
        assert((x + y)[0] == x[0]);
        assert((x + y).drop_first() =~= x.drop_first() + y);
        lemma_encode_concat(x.drop_first(), y);
        assert(encode_utf8(x + y) =~= encode_utf8(x) + encode_utf8(y));
    }
}

/// Escaping a concatenation escapes the parts.
proof fn lemma_escape_concat(x: Seq<u8>, y: Seq<u8>)
    ensures
        sf_escape(x + y) == sf_escape(x) + sf_escape(y),
    decreases y.len(),
{
    if y.len() == 0 {
        assert(x + y =~= x);
        assert(sf_escape(x) + sf_escape(y) =~= sf_escape(x));
    } else {
        assert((x + y).drop_last() =~= x + y.drop_last());
        assert((x + y).last() == y.last());
        lemma_escape_concat(x, y.drop_last());
        assert(sf_escape(x + y) =~= sf_escape(x) + sf_escape(y));
    }
}

/// Bytes with the top bit set need no escaping.
proof fn lemma_escape_high(b: Seq<u8>)
    requires
        forall|i: int| 0 <= i < b.len() ==> #[trigger] b[i] >= 0x80,
    ensures
        sf_escape(b) == b,
    decreases b.len(),
{
    if b.len() > 0 {
        lemma_escape_high(b.drop_last());
        assert(sf_escape(b) =~= b);
    }
}

/// A char as the escaping of a quoted string has it: `\` and `"` get a
/// backslash.
pub open spec fn escape_char(c: char) -> Seq<char> {
    if c == '\\' || c == '"' {
        seq!['\\', c]
    } else {
        seq![c]
    }
}

/// The chars of an escaped string.
pub open spec fn escape_chars(cs: Seq<char>) -> Seq<char>
    decreases cs.len(),
{
    if cs.len() == 0 {
        seq![]
    } else {
        escape_char(cs[0]) + escape_chars(cs.drop_first())
    }
}

/// Escaping the UTF-8 form of a char gives the UTF-8 form of its escape.
proof fn lemma_escape_scalar(c: char)
    ensures
        sf_escape(encode_scalar(c as u32)) == encode_utf8(escape_char(c)),
{
    let v = c as u32;
    vstd::utf8::char_is_scalar(c);
    if v <= 0x7f {
        lemma_ascii_scalar(c);
        let b = v as u8;
        assert(seq![b].drop_last() =~= Seq::<u8>::empty());
        assert(sf_escape(Seq::<u8>::empty()) =~= Seq::<u8>::empty());
        let e = escape_char(c);
        assert forall|i: int| 0 <= i < e.len() implies is_ascii_char(#[trigger] e[i]) by {}
        lemma_ascii_encode(e);
        assert(sf_escape(seq![b]) =~= encode_utf8(e));
    } else {
        let s = encode_scalar(v);
        assert(escape_char(c) == seq![c]);
        assert(seq![c].drop_first() =~= Seq::<char>::empty());
        assert(seq![c][0] == c);
        assert(encode_utf8(Seq::<char>::empty()) =~= Seq::<u8>::empty());
        assert(encode_utf8(seq![c]) =~= s);
        let l2 = vstd::utf8::leading_byte_width_2(v);
        let l3 = vstd::utf8::leading_byte_width_3(v);
        let l4 = vstd::utf8::leading_byte_width_4(v);
        let c1 = vstd::utf8::last_continuation_byte(v);
        let c2 = vstd::utf8::second_last_continuation_byte(v);
        let c3 = vstd::utf8::third_last_continuation_byte(v);
        lemma_or_high(0xC0, ((v >> 6) & 0x1F) as u8);
        lemma_or_high(0xE0, ((v >> 12) & 0x0F) as u8);
        lemma_or_high(0xF0, ((v >> 18) & 0x7) as u8);
        lemma_or_high(0x80, (v & 0x3F) as u8);
        lemma_or_high(0x80, ((v >> 6) & 0x3F) as u8);
        lemma_or_high(0x80, ((v >> 12) & 0x3F) as u8);
        assert(l2 >= 0x80 && l3 >= 0x80 && l4 >= 0x80 && c1 >= 0x80 && c2 >= 0x80 && c3 >= 0x80);
        if vstd::utf8::has_width_2_encoding(v) {
            assert(s == seq![l2, c1]);
        } else if vstd::utf8::has_width_3_encoding(v) {
            assert(s == seq![l3, c2, c1]);
        } else {
            assert(s == seq![l4, c3, c2, c1]);
        }
        assert forall|i: int| 0 <= i < s.len() implies #[trigger] s[i] >= 0x80 by {}
        lemma_escape_high(s);
    }
}

/// Escaping the UTF-8 form of a string gives the UTF-8 form of its
/// escaped chars.
proof fn lemma_escape_utf8(cs: Seq<char>)
    ensures
        sf_escape(encode_utf8(cs)) == encode_utf8(escape_chars(cs)),
    decreases cs.len(),
{
    if cs.len() == 0 {
        assert(sf_escape(Seq::<u8>::empty()) =~= Seq::<u8>::empty());
    } else {
        lemma_escape_utf8(cs.drop_first());
        lemma_escape_concat(encode_scalar(cs[0] as u32), encode_utf8(cs.drop_first()));
        lemma_escape_scalar(cs[0]);
        lemma_encode_concat(escape_char(cs[0]), escape_chars(cs.drop_first()));
    }
}

/// A quoted string is valid UTF-8.
proof fn lemma_quoted_valid(cs: Seq<char>)
    ensures
        valid_utf8(sf_quoted(encode_utf8(cs))),
{
    let q = seq!['"'];
    assert forall|i: int| 0 <= i < q.len() implies is_ascii_char(#[trigger] q[i]) by {}
    lemma_ascii_encode(q);
    assert(encode_utf8(q) =~= seq![0x22u8]);
    lemma_escape_utf8(cs);
    encode_utf8_valid_utf8(q);
    encode_utf8_valid_utf8(escape_chars(cs));
    valid_utf8_concat(seq![0x22u8], sf_escape(encode_utf8(cs)));
    valid_utf8_concat(seq![0x22u8] + sf_escape(encode_utf8(cs)), seq![0x22u8]);
}

/// A list of quoted strings is valid UTF-8.
pub proof fn lemma_join_valid(ps: Seq<Seq<char>>)
    ensures
        valid_utf8(sf_join(ps)),
    decreases ps.len(),
{
    if ps.len() == 0 {
        assert(sf_join(ps) == Seq::<u8>::empty());
        encode_utf8_valid_utf8(Seq::<char>::empty());
        assert(encode_utf8(Seq::<char>::empty()) =~= Seq::<u8>::empty());
    } else if ps.len() == 1 {
        lemma_quoted_valid(ps[0]);
    } else {
        lemma_join_valid(ps.drop_last());
        lemma_quoted_valid(ps.last());
        let sep = seq![',', ' '];
        assert forall|i: int| 0 <= i < sep.len() implies is_ascii_char(#[trigger] sep[i]) by {}
        lemma_ascii_encode(sep);
        assert(encode_utf8(sep) =~= seq![0x2cu8, 0x20u8]);
        encode_utf8_valid_utf8(sep);
        valid_utf8_concat(sf_join(ps.drop_last()), seq![0x2cu8, 0x20u8]);
        valid_utf8_concat(sf_join(ps.drop_last()) + seq![0x2cu8, 0x20u8], sf_quoted(encode_utf8(ps.last())));
    }
}

/// The draft a request is read back as: the draft its `:protocol` names,
/// draft 15 for `webtransport-h3` and draft 02 for `webtransport`.
pub open spec fn draft_read_back(d: DraftVersion) -> DraftVersion {
    match d {
        DraftVersion::Draft15 => DraftVersion::Draft15,
        _ => DraftVersion::Draft02,
    }
}

/// The `:protocol` values in bytes.
proof fn lemma_protocol_bytes()
    ensures
        encode_utf8(protocol_h3_chars()) == bytes_h3(),
        encode_utf8(protocol_draft02_chars()) == bytes_draft02(),
{
    let a = protocol_h3_chars();
    let b = protocol_draft02_chars();
    assert forall|i: int| 0 <= i < a.len() implies is_ascii_char(#[trigger] a[i]) by {}
    assert forall|i: int| 0 <= i < b.len() implies is_ascii_char(#[trigger] b[i]) by {}
    lemma_ascii_encode(a);
    lemma_ascii_encode(b);
    assert(encode_utf8(a) =~= bytes_h3());
    assert(encode_utf8(b) =~= bytes_draft02());
}

/// The header names a request uses differ from each other.
proof fn lemma_names_distinct()
    ensures
        name_method() != name_scheme(),
        name_method()[1] != name_scheme()[1],
        name_method().len() == 7 && name_scheme().len() == 7 && name_protocol().len() == 9,
        name_authority().len() == 10 && name_path().len() == 5,
        bytes_origin().len() == 6 && bytes_wt_available_protocols().len() == 22,
        bytes_h3().len() == 15 && bytes_draft02().len() == 12,
        name_method()[0] == 0x3a && name_scheme()[0] == 0x3a && name_protocol()[0] == 0x3a,
        name_authority()[0] == 0x3a && name_path()[0] == 0x3a,
        bytes_origin()[0] != 0x3a && bytes_wt_available_protocols()[0] != 0x3a,
{
}

/// A request's header pairs read back as the request: the draft its
/// `:protocol` names, its scheme, authority and path, and its `Origin`.
pub proof fn lemma_request_roundtrip(r: ConnectRequest)
    ensures
        ({
            let hs = request_pairs(r);
            let n = hs.len() as int;
            &&& request_draft_spec(hs) == Ok::<DraftVersion, ConnectError>(draft_read_back(r.draft_version))
            &&& text_or_empty(pair_value_of(hs, n, name_scheme())) == r.scheme@
            &&& text_or_empty(pair_value_of(hs, n, name_authority())) == r.authority@
            &&& text_or_empty(pair_value_of(hs, n, name_path())) == r.path@
            &&& match r.origin {
                Some(o) => pair_value_of(hs, n, bytes_origin()) matches Some(v) && decode_utf8(v) == o@,
                None => pair_value_of(hs, n, bytes_origin()) is None,
            }
        }),
{
    let hs = request_pairs(r);
    let n = hs.len() as int;
    lemma_names_distinct();
    lemma_protocol_bytes();
    let pv = encode_utf8(protocol_value_spec(r.draft_version));
    let sv = encode_utf8(r.scheme@);
    let av = encode_utf8(r.authority@);
    let tv = encode_utf8(r.path@);
    encode_utf8_valid_utf8(protocol_value_spec(r.draft_version));
    encode_utf8_valid_utf8(r.scheme@);
    encode_utf8_valid_utf8(r.authority@);
    encode_utf8_valid_utf8(r.path@);
    encode_utf8_decode_utf8(r.scheme@);
    encode_utf8_decode_utf8(r.authority@);
    encode_utf8_decode_utf8(r.path@);
    let base = seq![
        (name_method(), word_connect()),
        (name_protocol(), pv),
        (name_scheme(), sv),
        (name_authority(), av),
        (name_path(), tv),
    ];
    let os: Seq<(Seq<u8>, Seq<u8>)> = match r.origin {
        Some(o) => seq![(bytes_origin(), encode_utf8(o@))],
        None => seq![],
    };
    let ws: Seq<(Seq<u8>, Seq<u8>)> = if r.available_protocols@.len() > 0 {
        seq![(bytes_wt_available_protocols(), sf_join(string_views(r.available_protocols@)))]
    } else {
        seq![]
    };
    assert(hs == base + os + ws);
    match r.origin {
        Some(o) => {
            encode_utf8_valid_utf8(o@);
            encode_utf8_decode_utf8(o@);
        },
        None => {},
    }
    lemma_join_valid(string_views(r.available_protocols@));
    reveal_with_fuel(pair_value_of, 8);
    assert(pairs_well_formed(hs, n));
    if r.draft_version == DraftVersion::Draft15 {
        assert(pv == bytes_h3());
    } else {
        assert(pv == bytes_draft02());
        assert(pv != bytes_h3());
    }
}

} // verus!
