//! QPACK field section decoding (RFC 9204 Section 4.5): the static-table
//! decoder and the decoder that also reads the dynamic table.

use vstd::prelude::*;
use crate::error::QpackError;
use crate::qpack::header::{Header, HeaderView};
use crate::qpack::integer::{prefix_int_decoding, decode_integer};
use crate::qpack::table::{STATIC_TABLE_LEN, static_name, static_value, get_static_entry};
use crate::qpack::wire::{string_decoding, string_bytes_decoding, decode_string, decode_string_with_len,
    lemma_prefix_int_bounds};
use crate::bytes_be::append_bytes;
use crate::qpack::dynamic_table::{DynamicTable, DynamicTableView, DynamicEntryView, table_wf, entry_at_absolute};

verus! {

/// A decoded field line: its name and value; never-indexed is not kept.
pub open spec fn line_view(name: Seq<u8>, value: Seq<u8>) -> HeaderView {
    HeaderView { name, value, never_indexed: false }
}

/// A field line that decodes to a name and value and has length `n`.
pub type LineResult = Result<(HeaderView, nat), QpackError>;

/// Literal Field Line with Literal Name (`001NHxxx`, Section 4.5.6).
pub open spec fn literal_name_decoding(d: Seq<u8>) -> LineResult {
    match prefix_int_decoding(d, 3) {
        Err(e) => Err(e),
        Ok((nl, p)) => match string_bytes_decoding(d.skip(p as int), nl, d[0] & 0x08 != 0) {
            Err(e) => Err(e),
            Ok((name, nb)) => match string_decoding(d.skip((p + nb) as int)) {
                Err(e) => Err(e),
                Ok((v, m)) => Ok((line_view(name, v), p + nb + m)),
            },
        },
    }
}

/// A static table entry, or `InvalidIndex`.
pub open spec fn static_line(i: nat, c: nat) -> LineResult {
    if i >= STATIC_TABLE_LEN {
        Err(QpackError::InvalidIndex(i as u64))
    } else {
        Ok((line_view(static_name(i as int), static_value(i as int)), c))
    }
}

/// A field line that refers to the static table only (the static decoder
/// refuses dynamic references with `DecodeFailed`).
#[verifier::opaque]
pub open spec fn static_line_decoding(d: Seq<u8>) -> LineResult {
    if d.len() == 0 {
        Err(QpackError::BufferTooShort)
    } else if d[0] & 0x80 != 0 {
        if d[0] & 0x40 == 0 {
            Err(QpackError::DecodeFailed)
        } else {
            match prefix_int_decoding(d, 6) {
                Err(e) => Err(e),
                Ok((i, c)) => static_line(i, c),
            }
        }
    } else if d[0] & 0x40 != 0 {
        if d[0] & 0x10 == 0 {
            Err(QpackError::DecodeFailed)
        } else {
            match prefix_int_decoding(d, 4) {
                Err(e) => Err(e),
                Ok((i, c)) => if i >= STATIC_TABLE_LEN {
                    Err(QpackError::InvalidIndex(i as u64))
                } else {
                    match string_decoding(d.skip(c as int)) {
                        Err(e) => Err(e),
                        Ok((v, m)) => Ok((line_view(static_name(i as int), v), c + m)),
                    }
                },
            }
        }
    } else if d[0] & 0x20 != 0 {
        literal_name_decoding(d)
    } else {
        Err(QpackError::DecodeFailed)
    }
}

/// The static line reader, as a function value.
pub open spec fn static_line_fn() -> spec_fn(Seq<u8>) -> LineResult {
    |x: Seq<u8>| static_line_decoding(x)
}

/// The size a decoded line adds to a field section (RFC 9114 Section 4.2.2).
pub open spec fn line_size(h: HeaderView) -> nat {
    h.name.len() + h.value.len() + 32
}

/// The field lines filling `d`, each read with `line`, with the running
/// size kept within `max` (else `DecodeFailed`).
pub open spec fn section_lines(d: Seq<u8>, total: nat, max: nat, line: spec_fn(Seq<u8>) -> LineResult) -> Result<Seq<HeaderView>, QpackError>
    decreases d.len(),
{
    if d.len() == 0 {
        Ok(Seq::empty())
    } else {
        match line(d) {
            Err(e) => Err(e),
            Ok((h, c)) => if c == 0 || c > d.len() {
                Err(QpackError::DecodeFailed)
            } else if total + line_size(h) > max {
                Err(QpackError::DecodeFailed)
            } else {
                match section_lines(d.skip(c as int), total + line_size(h), max, line) {
                    Ok(rest) => Ok(seq![h] + rest),
                    Err(e) => Err(e),
                }
            },
        }
    }
}

/// A field section decoded with the static table only: Required Insert
/// Count 0, a Delta Base, then the field lines.
pub open spec fn static_section_decoding(d: Seq<u8>, max: u64) -> Result<Seq<HeaderView>, QpackError> {
    if d.len() < 2 {
        Err(QpackError::BufferTooShort)
    } else {
        match prefix_int_decoding(d, 8) {
            Err(e) => Err(e),
            Ok((ric, n1)) => if ric != 0 {
                Err(QpackError::DecodeFailed)
            } else if n1 >= d.len() {
                Err(QpackError::BufferTooShort)
            } else {
                match prefix_int_decoding(d.skip(n1 as int), 7) {
                    Err(e) => Err(e),
                    Ok((_, n2)) => section_lines(
                        d.skip((n1 + n2) as int),
                        0,
                        max as nat,
                        static_line_fn(),
                    ),
                }
            },
        }
    }
}

/// The views of decoded headers.
pub open spec fn header_views(v: Seq<Header>) -> Seq<HeaderView> {
    v.map_values(|h: Header| h@)
}

/// Reads a Literal Field Line with Literal Name.
fn decode_literal_with_literal_name(data: &[u8]) -> (r: Result<(Header, usize), QpackError>)
    requires
        data@.len() > 0,
    ensures
        match literal_name_decoding(data@) {
            Ok((h, n)) => r matches Ok((x, m)) && x@ == h && m == n,
            Err(e) => r == Err::<(Header, usize), QpackError>(e),
        },
{
    let (name_len, prefix_len) = match decode_integer(data, 3) {
        Ok(x) => x,
        Err(e) => return Err(e),
    };
    proof {
        lemma_prefix_int_bounds(data@, 3);
    }
    let is_huffman = (data[0] & 0x08) != 0;
    let rest = &data[prefix_len..data.len()];
    assert(rest@ =~= data@.skip(prefix_len as int));
    if name_len > rest.len() as u64 {
        return Err(QpackError::BufferTooShort);
    }
    let (name, name_bytes) = match decode_string_with_len(rest, name_len as usize, is_huffman) {
        Ok(x) => x,
        Err(e) => return Err(e),
    };
    let offset = prefix_len + name_bytes;
    let rest2 = &data[offset..data.len()];
    assert(rest2@ =~= data@.skip(offset as int));
    let (value, value_len) = match decode_string(rest2) {
        Ok(x) => x,
        Err(e) => return Err(e),
    };
    proof {
        lemma_string_bounds(rest2@);
    }
    Ok((Header::from_validated_parts_internal(name, value), offset + value_len))
}

/// A string literal ends within the data.
proof fn lemma_string_bounds(d: Seq<u8>)
    ensures
        string_decoding(d) matches Ok((s, n)) ==> n <= d.len(),
{
    lemma_prefix_int_bounds(d, 7);
}

/// A decoded line takes at least one byte and ends within the data.
proof fn lemma_literal_name_bounds(d: Seq<u8>)
    ensures
        literal_name_decoding(d) matches Ok((h, n)) ==> 1 <= n <= d.len(),
{
    lemma_prefix_int_bounds(d, 3);
    if let Ok((nl, p)) = prefix_int_decoding(d, 3) {
        if let Ok((name, nb)) = string_bytes_decoding(d.skip(p as int), nl, d[0] & 0x08 != 0) {
            lemma_string_bounds(d.skip((p + nb) as int));
        }
    }
}

/// A QPACK decoder for the static table only.
#[derive(Debug)]
pub struct Decoder {
    max_field_section_size: u64,
}

impl Default for Decoder {
    fn default() -> (r: Decoder)
        ensures
            r.max_field_section_size_spec() == 0,
    {
        Decoder { max_field_section_size: 0 }
    }
}

impl Decoder {
    /// The largest field section the decoder accepts.
    pub closed spec fn max_field_section_size_spec(&self) -> u64 {
        self.max_field_section_size
    }

    /// A decoder that accepts field sections of up to 16 KiB.
    pub fn new() -> (r: Decoder)
        ensures
            r.max_field_section_size_spec() == 16384,
    {
        Decoder { max_field_section_size: 16 * 1024 }
    }

    /// This decoder with another field section limit.
    pub fn max_field_section_size(self, size: u64) -> (r: Decoder)
        ensures
            r.max_field_section_size_spec() == size,
    {
        Decoder { max_field_section_size: size }
    }

    /// Decodes a field section that refers to the static table only.
    pub fn decode(&self, data: &[u8]) -> (r: Result<Vec<Header>, QpackError>)
        ensures
            match static_section_decoding(data@, self.max_field_section_size_spec()) {
                Ok(hs) => r matches Ok(v) && header_views(v@) == hs,
                Err(e) => r == Err::<Vec<Header>, QpackError>(e),
            },
    {
        if data.len() < 2 {
            return Err(QpackError::BufferTooShort);
        }
        let (ric, n1) = match decode_integer(data, 8) {
            Ok(x) => x,
            Err(e) => return Err(e),
        };
        proof {
            lemma_prefix_int_bounds(data@, 8);
        }
        if ric != 0 {
            return Err(QpackError::DecodeFailed);
        }
        if n1 >= data.len() {
            return Err(QpackError::BufferTooShort);
        }
        let rest = &data[n1..data.len()];
        assert(rest@ =~= data@.skip(n1 as int));
        let (_, n2) = match decode_integer(rest, 7) {
            Ok(x) => x,
            Err(e) => return Err(e),
        };
        proof {
            lemma_prefix_int_bounds(rest@, 7);
        }
        let lines = &data[n1 + n2..data.len()];
        assert(lines@ =~= data@.skip((n1 + n2) as int));
        decode_lines_static(lines, self.max_field_section_size)
    }
}

/// Reads a static field line.
fn decode_static_line(data: &[u8]) -> (r: Result<(Header, usize), QpackError>)
    ensures
        match static_line_decoding(data@) {
            Ok((h, n)) => r matches Ok((x, m)) && x@ == h && m == n,
            Err(e) => r == Err::<(Header, usize), QpackError>(e),
        },
{
    reveal(static_line_decoding);
    if data.len() == 0 {
        return Err(QpackError::BufferTooShort);
    }
    let first = data[0];
    if first & 0x80 != 0 {
        if first & 0x40 == 0 {
            return Err(QpackError::DecodeFailed);
        }
        let (index, consumed) = match decode_integer(data, 6) {
            Ok(x) => x,
            Err(e) => return Err(e),
        };
        proof {
            lemma_prefix_int_bounds(data@, 6);
        }
        if index >= STATIC_TABLE_LEN as u64 {
            return Err(QpackError::InvalidIndex(index));
        }
        match get_static_entry(index as usize) {
            Some(h) => Ok((h, consumed)),
            None => Err(QpackError::InvalidIndex(index)),
        }
    } else if first & 0x40 != 0 {
        if first & 0x10 == 0 {
            return Err(QpackError::DecodeFailed);
        }
        let (index, index_len) = match decode_integer(data, 4) {
            Ok(x) => x,
            Err(e) => return Err(e),
        };
        proof {
            lemma_prefix_int_bounds(data@, 4);
        }
        if index >= STATIC_TABLE_LEN as u64 {
            return Err(QpackError::InvalidIndex(index));
        }
        let name = match get_static_entry(index as usize) {
            Some(h) => {
                let mut n: Vec<u8> = Vec::new();
                append_bytes(&mut n, h.name());
                n
            },
            None => return Err(QpackError::InvalidIndex(index)),
        };
        let rest = &data[index_len..data.len()];
        assert(rest@ =~= data@.skip(index_len as int));
        let (value, value_len) = match decode_string(rest) {
            Ok(x) => x,
            Err(e) => return Err(e),
        };
        proof {
            lemma_string_bounds(rest@);
        }
        Ok((Header::from_validated_parts_internal(name, value), index_len + value_len))
    } else if first & 0x20 != 0 {
        decode_literal_with_literal_name(data)
    } else {
        Err(QpackError::DecodeFailed)
    }
}

/// A static line takes at least one byte and ends within the data.
proof fn lemma_static_line_bounds(d: Seq<u8>)
    ensures
        static_line_decoding(d) matches Ok((h, n)) ==> 1 <= n <= d.len(),
{
    reveal(static_line_decoding);
    if d.len() > 0 {
        lemma_prefix_int_bounds(d, 6);
        lemma_prefix_int_bounds(d, 4);
        lemma_literal_name_bounds(d);
        if let Ok((i, c)) = prefix_int_decoding(d, 4) {
            lemma_string_bounds(d.skip(c as int));
        }
    }
}

/// Reads the field lines of a static field section.
fn decode_lines_static(data: &[u8], max: u64) -> (r: Result<Vec<Header>, QpackError>)
    ensures
        match section_lines(data@, 0, max as nat, static_line_fn()) {
            Ok(hs) => r matches Ok(v) && header_views(v@) == hs,
            Err(e) => r == Err::<Vec<Header>, QpackError>(e),
        },
{
    let ghost line = static_line_fn();
    let ghost whole = section_lines(data@, 0, max as nat, line);
    let mut headers: Vec<Header> = Vec::new();
    let mut total: u64 = 0;
    let mut offset: usize = 0;
    proof {
        assert(data@.skip(0) =~= data@);
        assert(header_views(headers@) =~= Seq::<HeaderView>::empty());
        match whole {
            Ok(hs) => {
                assert(Seq::<HeaderView>::empty() + hs =~= hs);
            },
            Err(_) => {},
        }
    }
    while offset < data.len()
        invariant
            offset <= data.len(),
            total <= max,
            line == static_line_fn(),
            whole == section_lines(data@, 0, max as nat, line),
            whole == match section_lines(data@.skip(offset as int), total as nat, max as nat, line) {
                Ok(rest) => Ok(header_views(headers@) + rest),
                Err(e) => Err(e),
            },
        decreases data.len() - offset,
    {
        let rest = &data[offset..data.len()];
        assert(rest@ =~= data@.skip(offset as int));
        let (header, consumed) = match decode_static_line(rest) {
            Ok(x) => x,
            Err(e) => return Err(e),
        };
        proof {
            lemma_static_line_bounds(rest@);
            assert(line(rest@) == static_line_decoding(rest@));
        }
        let size: u128 = (header.name().len() as u128) + (header.value().len() as u128) + 32;
        if (total as u128) + size > (max as u128) {
            return Err(QpackError::DecodeFailed);
        }
        let ghost old_total = total as nat;
        total = total + size as u64;
        let ghost before = headers@;
        let ghost h = header@;
        headers.push(header);
        proof {
            assert(header_views(headers@) =~= header_views(before) + seq![h]);
            assert(data@.skip(offset as int).skip(consumed as int) =~= data@.skip(offset + consumed));
            assert(line_size(h) == size);
            let s_new = section_lines(data@.skip(offset + consumed), total as nat, max as nat, line);
            assert(section_lines(data@.skip(offset as int), old_total, max as nat, line) == match s_new {
                Ok(r) => Ok(seq![h] + r),
                Err(e) => Err(e),
            });
            match s_new {
                Ok(r) => {
                    assert(header_views(before) + (seq![h] + r) =~= header_views(headers@) + r);
                },
                Err(_) => {},
            }
        }
        offset = offset + consumed;
    }
    proof {
        assert(data@.skip(offset as int) =~= Seq::<u8>::empty());
        assert(header_views(headers@) + Seq::<HeaderView>::empty() =~= header_views(headers@));
    }
    Ok(headers)
}

/// The entry a field line names by relative index `index` from `base`:
/// `DecodeFailed` where its absolute index is not below the Required Insert
/// Count (Section 2.2.3), `InvalidIndex` where the table lacks it.
pub open spec fn relative_ref(t: DynamicTableView, base: u64, ric: u64, index: u64) -> Result<DynamicEntryView, QpackError> {
    if index < base && base - index - 1 >= ric {
        Err(QpackError::DecodeFailed)
    } else if index >= base {
        Err(QpackError::InvalidIndex(index))
    } else {
        match entry_at_absolute(t, (base - index - 1) as u64) {
            Some(e) => Ok(e),
            None => Err(QpackError::InvalidIndex(index)),
        }
    }
}

/// The entry a field line names by post-base index `pbi` (Section 3.2.6).
pub open spec fn post_base_ref(t: DynamicTableView, base: u64, ric: u64, pbi: u64) -> Result<DynamicEntryView, QpackError> {
    if base + pbi >= ric {
        Err(QpackError::DecodeFailed)
    } else {
        match entry_at_absolute(t, (base + pbi) as u64) {
            Some(e) => Ok(e),
            None => Err(QpackError::InvalidIndex(pbi)),
        }
    }
}

/// A field line read against the static and dynamic tables.
#[verifier::opaque]
pub open spec fn dynamic_line_decoding(t: DynamicTableView, base: u64, ric: u64, d: Seq<u8>) -> LineResult {
    if d.len() == 0 {
        Err(QpackError::BufferTooShort)
    } else if d[0] & 0x80 != 0 {
        match prefix_int_decoding(d, 6) {
            Err(e) => Err(e),
            Ok((i, c)) => if d[0] & 0x40 != 0 {
                static_line(i, c)
            } else {
                match relative_ref(t, base, ric, i as u64) {
                    Err(e) => Err(e),
                    Ok(e) => Ok((line_view(e.name, e.value), c)),
                }
            },
        }
    } else if d[0] & 0x40 != 0 {
        match prefix_int_decoding(d, 4) {
            Err(e) => Err(e),
            Ok((i, c)) => {
                let name: Result<Seq<u8>, QpackError> = if d[0] & 0x10 != 0 {
                    if i >= STATIC_TABLE_LEN {
                        Err(QpackError::InvalidIndex(i as u64))
                    } else {
                        Ok(static_name(i as int))
                    }
                } else {
                    match relative_ref(t, base, ric, i as u64) {
                        Err(e) => Err(e),
                        Ok(e) => Ok(e.name),
                    }
                };
                match name {
                    Err(e) => Err(e),
                    Ok(n) => match string_decoding(d.skip(c as int)) {
                        Err(e) => Err(e),
                        Ok((v, m)) => Ok((line_view(n, v), c + m)),
                    },
                }
            },
        }
    } else if d[0] & 0x20 != 0 {
        literal_name_decoding(d)
    } else if d[0] & 0x10 != 0 {
        match prefix_int_decoding(d, 4) {
            Err(e) => Err(e),
            Ok((p, c)) => match post_base_ref(t, base, ric, p as u64) {
                Err(e) => Err(e),
                Ok(e) => Ok((line_view(e.name, e.value), c)),
            },
        }
    } else {
        match prefix_int_decoding(d, 3) {
            Err(e) => Err(e),
            Ok((p, c)) => match post_base_ref(t, base, ric, p as u64) {
                Err(e) => Err(e),
                Ok(e) => match string_decoding(d.skip(c as int)) {
                    Err(err) => Err(err),
                    Ok((v, m)) => Ok((line_view(e.name, v), c + m)),
                },
            },
        }
    }
}

/// The dynamic line reader, as a function value.
pub open spec fn dynamic_line_fn(t: DynamicTableView, base: u64, ric: u64) -> spec_fn(Seq<u8>) -> LineResult {
    |x: Seq<u8>| dynamic_line_decoding(t, base, ric, x)
}

/// The Required Insert Count an encoded value stands for (Section
/// 4.5.1.1), given the maximum table capacity and the insert count.
pub open spec fn ric_decoding(enc: nat, max_table_capacity: u64, insert_count: u64) -> Result<u64, QpackError> {
    if enc == 0 {
        Ok(0)
    } else {
        let max_entries = max_table_capacity / 32;
        let full = 2 * max_entries;
        if max_entries == 0 || enc > full {
            Err(QpackError::DecodeFailed)
        } else {
            let max_value = insert_count + max_entries;
            let req0 = (max_value / full) * full + enc - 1;
            let req: int = if req0 > max_value {
                if req0 <= full {
                    0
                } else {
                    req0 - full
                }
            } else {
                req0
            };
            if req == 0 || req > u64::MAX {
                Err(QpackError::DecodeFailed)
            } else {
                Ok(req as u64)
            }
        }
    }
}

/// The abstract state of a dynamic decoder.
pub struct DynamicDecoderView {
    /// The dynamic table.
    pub table: DynamicTableView,
    /// The largest field section accepted.
    pub max_field_section_size: u64,
    /// The table capacity this side allows.
    pub max_table_capacity: u64,
    /// The Required Insert Count of the last decoded section.
    pub last_required_insert_count: u64,
}

/// The base a field section names with `delta` and its sign, or `None`
/// where it leaves the 64-bit range.
pub open spec fn base_of(ric: u64, sign: bool, delta: nat) -> Option<u64> {
    if sign {
        if ric <= delta {
            None
        } else {
            Some((ric - delta - 1) as u64)
        }
    } else if ric + delta > u64::MAX {
        None
    } else {
        Some((ric + delta) as u64)
    }
}

/// What decoding a field section does: the Required Insert Count it
/// records (where it got that far) and the headers, `None` for a blocked
/// section (Section 2.1.2), or the error.
pub open spec fn dynamic_section_decoding(v: DynamicDecoderView, d: Seq<u8>) -> (Option<u64>, Result<Option<Seq<HeaderView>>, QpackError>) {
    if d.len() < 2 {
        (None, Err(QpackError::BufferTooShort))
    } else {
        match prefix_int_decoding(d, 8) {
            Err(e) => (None, Err(e)),
            Ok((enc, n1)) => match ric_decoding(enc, v.max_table_capacity, v.table.insert_count) {
                Err(e) => (None, Err(e)),
                Ok(ric) => if ric > 0 && v.table.insert_count < ric {
                    (Some(ric), Ok(None))
                } else if n1 >= d.len() {
                    (Some(ric), Err(QpackError::BufferTooShort))
                } else {
                    match prefix_int_decoding(d.skip(n1 as int), 7) {
                        Err(e) => (Some(ric), Err(e)),
                        Ok((delta, n2)) => match base_of(ric, d[n1 as int] & 0x80 != 0, delta) {
                            None => (Some(ric), Err(QpackError::DecodeFailed)),
                            Some(base) => (
                                Some(ric),
                                match section_lines(
                                    d.skip((n1 + n2) as int),
                                    0,
                                    v.max_field_section_size as nat,
                                    dynamic_line_fn(v.table, base, ric),
                                ) {
                                    Ok(hs) => Ok(Some(hs)),
                                    Err(e) => Err(e),
                                },
                            ),
                        },
                    }
                },
            },
        }
    }
}

/// The result of decoding a field section with the dynamic table.
#[derive(Debug)]
pub enum DecodeOutput {
    /// The headers.
    Decoded(Vec<Header>),
    /// The section needs entries not yet received (Section 2.1.2).
    Blocked,
}

/// A QPACK decoder that reads the static and dynamic tables.
#[derive(Debug)]
pub struct DynamicDecoder {
    table: DynamicTable,
    max_field_section_size: u64,
    max_table_capacity: u64,
    last_required_insert_count: u64,
}

impl View for DynamicDecoder {
    type V = DynamicDecoderView;

    closed spec fn view(&self) -> DynamicDecoderView {
        DynamicDecoderView {
            table: self.table@,
            max_field_section_size: self.max_field_section_size,
            max_table_capacity: self.max_table_capacity,
            last_required_insert_count: self.last_required_insert_count,
        }
    }
}

impl Default for DynamicDecoder {
    fn default() -> (r: DynamicDecoder)
        ensures
            r@ == DynamicDecoder::new_view(),
            table_wf(r@.table),
    {
        DynamicDecoder::new()
    }
}

/// Reads the entry a relative index names.
fn relative_entry(table: &DynamicTable, base: u64, ric: u64, index: u64) -> (r: Result<(Vec<u8>, Vec<u8>), QpackError>)
    requires
        table_wf(table@),
    ensures
        match relative_ref(table@, base, ric, index) {
            Ok(e) => r matches Ok((n, v)) && n@ == e.name && v@ == e.value,
            Err(e) => r == Err::<(Vec<u8>, Vec<u8>), QpackError>(e),
        },
{
    if index < base {
        let absolute_index = base - index - 1;
        if absolute_index >= ric {
            return Err(QpackError::DecodeFailed);
        }
    }
    match table.get_by_relative_index_repr(index, base) {
        Some(e) => Ok((e.name.clone(), e.value.clone())),
        None => Err(QpackError::InvalidIndex(index)),
    }
}

/// Reads the entry a post-base index names.
fn post_base_entry(table: &DynamicTable, base: u64, ric: u64, pbi: u64) -> (r: Result<(Vec<u8>, Vec<u8>), QpackError>)
    requires
        table_wf(table@),
    ensures
        match post_base_ref(table@, base, ric, pbi) {
            Ok(e) => r matches Ok((n, v)) && n@ == e.name && v@ == e.value,
            Err(e) => r == Err::<(Vec<u8>, Vec<u8>), QpackError>(e),
        },
{
    if (base as u128) + (pbi as u128) >= (ric as u128) {
        return Err(QpackError::DecodeFailed);
    }
    match table.get_by_post_base_index(pbi, base) {
        Some(e) => Ok((e.name.clone(), e.value.clone())),
        None => Err(QpackError::InvalidIndex(pbi)),
    }
}

/// Reads a field line against both tables.
fn decode_dynamic_line(table: &DynamicTable, base: u64, ric: u64, data: &[u8]) -> (r: Result<(Header, usize), QpackError>)
    requires
        table_wf(table@),
    ensures
        match dynamic_line_decoding(table@, base, ric, data@) {
            Ok((h, n)) => r matches Ok((x, m)) && x@ == h && m == n,
            Err(e) => r == Err::<(Header, usize), QpackError>(e),
        },
{
    reveal(dynamic_line_decoding);
    if data.len() == 0 {
        return Err(QpackError::BufferTooShort);
    }
    let first = data[0];
    if first & 0x80 != 0 {
        let (index, consumed) = match decode_integer(data, 6) {
            Ok(x) => x,
            Err(e) => return Err(e),
        };
        proof {
            lemma_prefix_int_bounds(data@, 6);
        }
        if first & 0x40 != 0 {
            if index >= STATIC_TABLE_LEN as u64 {
                return Err(QpackError::InvalidIndex(index));
            }
            match get_static_entry(index as usize) {
                Some(h) => Ok((h, consumed)),
                None => Err(QpackError::InvalidIndex(index)),
            }
        } else {
            match relative_entry(table, base, ric, index) {
                Ok((n, v)) => Ok((Header::from_validated_parts_internal(n, v), consumed)),
                Err(e) => Err(e),
            }
        }
    } else if first & 0x40 != 0 {
        let (index, index_len) = match decode_integer(data, 4) {
            Ok(x) => x,
            Err(e) => return Err(e),
        };
        proof {
            lemma_prefix_int_bounds(data@, 4);
        }
        let name = if first & 0x10 != 0 {
            if index >= STATIC_TABLE_LEN as u64 {
                return Err(QpackError::InvalidIndex(index));
            }
            match get_static_entry(index as usize) {
                Some(h) => {
                    let mut n: Vec<u8> = Vec::new();
                    append_bytes(&mut n, h.name());
                    n
                },
                None => return Err(QpackError::InvalidIndex(index)),
            }
        } else {
            match relative_entry(table, base, ric, index) {
                Ok((n, _)) => n,
                Err(e) => return Err(e),
            }
        };
        let rest = &data[index_len..data.len()];
        assert(rest@ =~= data@.skip(index_len as int));
        let (value, value_len) = match decode_string(rest) {
            Ok(x) => x,
            Err(e) => return Err(e),
        };
        proof {
            lemma_string_bounds(rest@);
        }
        Ok((Header::from_validated_parts_internal(name, value), index_len + value_len))
    } else if first & 0x20 != 0 {
        decode_literal_with_literal_name(data)
    } else if first & 0x10 != 0 {
        let (pbi, consumed) = match decode_integer(data, 4) {
            Ok(x) => x,
            Err(e) => return Err(e),
        };
        proof {
            lemma_prefix_int_bounds(data@, 4);
        }
        match post_base_entry(table, base, ric, pbi) {
            Ok((n, v)) => Ok((Header::from_validated_parts_internal(n, v), consumed)),
            Err(e) => Err(e),
        }
    } else {
        let (pbi, index_len) = match decode_integer(data, 3) {
            Ok(x) => x,
            Err(e) => return Err(e),
        };
        proof {
            lemma_prefix_int_bounds(data@, 3);
        }
        let name = match post_base_entry(table, base, ric, pbi) {
            Ok((n, _)) => n,
            Err(e) => return Err(e),
        };
        let rest = &data[index_len..data.len()];
        assert(rest@ =~= data@.skip(index_len as int));
        let (value, value_len) = match decode_string(rest) {
            Ok(x) => x,
            Err(e) => return Err(e),
        };
        proof {
            lemma_string_bounds(rest@);
        }
        Ok((Header::from_validated_parts_internal(name, value), index_len + value_len))
    }
}

/// A dynamic line takes at least one byte and ends within the data.
proof fn lemma_dynamic_line_bounds(t: DynamicTableView, base: u64, ric: u64, d: Seq<u8>)
    ensures
        dynamic_line_decoding(t, base, ric, d) matches Ok((h, n)) ==> 1 <= n <= d.len(),
{
    reveal(dynamic_line_decoding);
    if d.len() > 0 {
        lemma_prefix_int_bounds(d, 6);
        lemma_prefix_int_bounds(d, 4);
        lemma_prefix_int_bounds(d, 3);
        lemma_literal_name_bounds(d);
        if let Ok((i, c)) = prefix_int_decoding(d, 4) {
            lemma_string_bounds(d.skip(c as int));
        }
        if let Ok((i, c)) = prefix_int_decoding(d, 3) {
            lemma_string_bounds(d.skip(c as int));
        }
    }
}

/// Reads the field lines of a field section against both tables.
fn decode_lines_dynamic(table: &DynamicTable, base: u64, ric: u64, data: &[u8], max: u64) -> (r: Result<Vec<Header>, QpackError>)
    requires
        table_wf(table@),
    ensures
        match section_lines(data@, 0, max as nat, dynamic_line_fn(table@, base, ric)) {
            Ok(hs) => r matches Ok(v) && header_views(v@) == hs,
            Err(e) => r == Err::<Vec<Header>, QpackError>(e),
        },
{
    let ghost line = dynamic_line_fn(table@, base, ric);
    let ghost whole = section_lines(data@, 0, max as nat, line);
    let mut headers: Vec<Header> = Vec::new();
    let mut total: u64 = 0;
    let mut offset: usize = 0;
    proof {
        assert(data@.skip(0) =~= data@);
        assert(header_views(headers@) =~= Seq::<HeaderView>::empty());
        match whole {
            Ok(hs) => {
                assert(Seq::<HeaderView>::empty() + hs =~= hs);
            },
            Err(_) => {},
        }
    }
    while offset < data.len()
        invariant
            offset <= data.len(),
            total <= max,
            table_wf(table@),
            line == dynamic_line_fn(table@, base, ric),
            whole == section_lines(data@, 0, max as nat, line),
            whole == match section_lines(data@.skip(offset as int), total as nat, max as nat, line) {
                Ok(rest) => Ok(header_views(headers@) + rest),
                Err(e) => Err(e),
            },
        decreases data.len() - offset,
    {
        let rest = &data[offset..data.len()];
        assert(rest@ =~= data@.skip(offset as int));
        let (header, consumed) = match decode_dynamic_line(table, base, ric, rest) {
            Ok(x) => x,
            Err(e) => return Err(e),
        };
        proof {
            lemma_dynamic_line_bounds(table@, base, ric, rest@);
            assert(line(rest@) == dynamic_line_decoding(table@, base, ric, rest@));
        }
        let size: u128 = (header.name().len() as u128) + (header.value().len() as u128) + 32;
        if (total as u128) + size > (max as u128) {
            return Err(QpackError::DecodeFailed);
        }
        let ghost old_total = total as nat;
        total = total + size as u64;
        let ghost before = headers@;
        let ghost h = header@;
        headers.push(header);
        proof {
            assert(header_views(headers@) =~= header_views(before) + seq![h]);
            assert(data@.skip(offset as int).skip(consumed as int) =~= data@.skip(offset + consumed));
            let s_new = section_lines(data@.skip(offset + consumed), total as nat, max as nat, line);
            assert(section_lines(data@.skip(offset as int), old_total, max as nat, line) == match s_new {
                Ok(r) => Ok(seq![h] + r),
                Err(e) => Err(e),
            });
            match s_new {
                Ok(r) => {
                    assert(header_views(before) + (seq![h] + r) =~= header_views(headers@) + r);
                },
                Err(_) => {},
            }
        }
        offset = offset + consumed;
    }
    proof {
        assert(data@.skip(offset as int) =~= Seq::<u8>::empty());
        assert(header_views(headers@) + Seq::<HeaderView>::empty() =~= header_views(headers@));
    }
    Ok(headers)
}

impl DynamicDecoder {
    /// The state of a new decoder.
    pub open spec fn new_view() -> DynamicDecoderView {
        DynamicDecoderView {
            table: DynamicTable::empty_view(0),
            max_field_section_size: 16384,
            max_table_capacity: 0,
            last_required_insert_count: 0,
        }
    }

    /// A decoder with an empty table of capacity 0, accepting field sections
    /// of up to 16 KiB.
    pub fn new() -> (r: DynamicDecoder)
        ensures
            r@ == Self::new_view(),
            table_wf(r@.table),
    {
        DynamicDecoder {
            table: DynamicTable::new(),
            max_field_section_size: 16 * 1024,
            max_table_capacity: 0,
            last_required_insert_count: 0,
        }
    }

    /// This decoder with another field section limit.
    pub fn max_field_section_size(self, size: u64) -> (r: DynamicDecoder)
        ensures
            r@ == (DynamicDecoderView { max_field_section_size: size, ..self@ }),
    {
        DynamicDecoder { max_field_section_size: size, ..self }
    }

    /// Sets the field section limit.
    pub fn set_max_field_section_size(&mut self, size: u64)
        ensures
            final(self)@ == (DynamicDecoderView { max_field_section_size: size, ..old(self)@ }),
    {
        self.max_field_section_size = size;
    }

    /// Sets the table capacity this side allows (SETTINGS_QPACK_MAX_TABLE_CAPACITY).
    pub fn set_max_table_capacity(&mut self, capacity: u64)
        ensures
            final(self)@ == (DynamicDecoderView { max_table_capacity: capacity, ..old(self)@ }),
    {
        self.max_table_capacity = capacity;
    }

    /// Sets the dynamic table's capacity, evicting what no longer fits.
    pub fn set_table_capacity(&mut self, capacity: u64)
        requires
            table_wf(old(self)@.table),
        ensures
            final(self)@ == (DynamicDecoderView {
                table: crate::qpack::dynamic_table::evicted(
                    crate::qpack::dynamic_table::DynamicTableView { max_capacity: capacity, ..old(self)@.table },
                    0,
                ),
                ..old(self)@
            }),
            table_wf(final(self)@.table),
    {
        self.table.set_capacity(capacity);
    }

    /// The dynamic table.
    pub fn table(&self) -> (r: &DynamicTable)
        ensures
            r@ == self@.table,
    {
        &self.table
    }

    /// The dynamic table, to change it.
    pub fn table_mut(&mut self) -> (r: &mut DynamicTable)
        ensures
            r@ == old(self)@.table,
            final(self)@ == (DynamicDecoderView { table: final(r)@, ..old(self)@ }),
    {
        &mut self.table
    }

    /// Computes the Required Insert Count from its encoding (Section 4.5.1.1).
    fn decode_required_insert_count(&self, enc: u64) -> (r: Result<u64, QpackError>)
        ensures
            r == ric_decoding(enc as nat, self@.max_table_capacity, self@.table.insert_count),
    {
        if enc == 0 {
            return Ok(0);
        }
        let max_entries = self.max_table_capacity / 32;
        let full: u64 = 2 * max_entries;
        if max_entries == 0 || enc > full {
            return Err(QpackError::DecodeFailed);
        }
        let max_value: u128 = (self.table.insert_count() as u128) + (max_entries as u128);
        let q: u128 = max_value / (full as u128);
        assert(q * (full as u128) <= max_value) by (nonlinear_arith)
            requires
                q == max_value / (full as u128),
                full > 0,
        ;
        let req0: u128 = q * (full as u128) + (enc as u128) - 1;
        let req: u128 = if req0 > max_value {
            if req0 <= full as u128 {
                0
            } else {
                req0 - full as u128
            }
        } else {
            req0
        };
        if req == 0 || req > u64::MAX as u128 {
            return Err(QpackError::DecodeFailed);
        }
        Ok(req as u64)
    }

    /// Decodes a field section against both tables; `Blocked` where it needs
    /// entries not yet received (Section 2.1.2). Dynamic references at or
    /// beyond the Required Insert Count are `DecodeFailed` (Section 2.2.3).
    pub fn decode(&mut self, data: &[u8]) -> (r: Result<DecodeOutput, QpackError>)
        requires
            table_wf(old(self)@.table),
        ensures
            ({
                let (ric, out) = dynamic_section_decoding(old(self)@, data@);
                &&& final(self)@ == (DynamicDecoderView {
                    last_required_insert_count: match ric {
                        Some(x) => x,
                        None => old(self)@.last_required_insert_count,
                    },
                    ..old(self)@
                })
                &&& match out {
                    Ok(Some(hs)) => r matches Ok(DecodeOutput::Decoded(v)) && header_views(v@) == hs,
                    Ok(None) => r matches Ok(DecodeOutput::Blocked),
                    Err(e) => r matches Err(x) && x == e,
                }
            }),
            table_wf(final(self)@.table),
    {
        if data.len() < 2 {
            return Err(QpackError::BufferTooShort);
        }
        let (enc, n1) = match decode_integer(data, 8) {
            Ok(x) => x,
            Err(e) => return Err(e),
        };
        proof {
            lemma_prefix_int_bounds(data@, 8);
        }
        let ric = match self.decode_required_insert_count(enc) {
            Ok(x) => x,
            Err(e) => return Err(e),
        };
        self.last_required_insert_count = ric;
        if ric > 0 && self.table.insert_count() < ric {
            return Ok(DecodeOutput::Blocked);
        }
        if n1 >= data.len() {
            return Err(QpackError::BufferTooShort);
        }
        let sign = (data[n1] & 0x80) != 0;
        let rest = &data[n1..data.len()];
        assert(rest@ =~= data@.skip(n1 as int));
        let (delta, n2) = match decode_integer(rest, 7) {
            Ok(x) => x,
            Err(e) => return Err(e),
        };
        proof {
            lemma_prefix_int_bounds(rest@, 7);
        }
        let base = if sign {
            if ric <= delta {
                return Err(QpackError::DecodeFailed);
            }
            ric - delta - 1
        } else {
            match ric.checked_add(delta) {
                Some(b) => b,
                None => return Err(QpackError::DecodeFailed),
            }
        };
        let lines = &data[n1 + n2..data.len()];
        assert(lines@ =~= data@.skip((n1 + n2) as int));
        match decode_lines_dynamic(&self.table, base, ric, lines, self.max_field_section_size) {
            Ok(v) => Ok(DecodeOutput::Decoded(v)),
            Err(e) => Err(e),
        }
    }

    /// Inserts an entry into the dynamic table.
    pub fn insert(&mut self, name: Vec<u8>, value: Vec<u8>) -> (r: Option<u64>)
        requires
            table_wf(old(self)@.table),
        ensures
            (final(self)@.table, r) == crate::qpack::dynamic_table::insert_outcome(old(self)@.table, name@, value@),
            final(self)@ == (DynamicDecoderView { table: final(self)@.table, ..old(self)@ }),
            table_wf(final(self)@.table),
    {
        self.table.insert(name, value)
    }

    /// The Required Insert Count of the last decoded section: above 0, the
    /// section used the dynamic table and needs a Section Acknowledgment.
    pub fn last_required_insert_count(&self) -> (r: u64)
        ensures
            r == self@.last_required_insert_count,
    {
        self.last_required_insert_count
    }
}

} // verus!
