//! The part of Structured Fields (RFC 9651) that WebTransport protocol
//! negotiation reads: lists of strings, and a string item, with parameters
//! ignored (draft-ietf-webtrans-http3-15 Section 3.3).

use vstd::prelude::*;
use crate::text::{chars_of, string_from_chars};
use vstd::string::StringSliceAdditionalSpecFns;

verus! {

/// The longest list accepted, in bytes (RFC 9651 Section 4.2.5 advice).
pub const MAX_SF_INPUT_LEN: usize = 8192;

/// The most members a list may have.
pub const MAX_SF_ELEMENTS: usize = 256;

/// A white-space character as `str::trim` removes it (Unicode White_Space).
pub open spec fn is_white_space(c: char) -> bool {
    let u = c as u32;
    (0x09 <= u <= 0x0d) || u == 0x20 || u == 0x85 || u == 0xa0 || u == 0x1680 || (0x2000 <= u
        <= 0x200a) || u == 0x2028 || u == 0x2029 || u == 0x202f || u == 0x205f || u == 0x3000
}

/// `s` without leading white space.
pub open spec fn trim_start_spec(s: Seq<char>) -> Seq<char>
    decreases s.len(),
{
    if s.len() > 0 && is_white_space(s[0]) {
        trim_start_spec(s.skip(1))
    } else {
        s
    }
}

/// `s` without trailing white space.
pub open spec fn trim_end_spec(s: Seq<char>) -> Seq<char>
    decreases s.len(),
{
    if s.len() > 0 && is_white_space(s.last()) {
        trim_end_spec(s.drop_last())
    } else {
        s
    }
}

/// `s` without leading or trailing white space.
pub open spec fn trim_spec(s: Seq<char>) -> Seq<char> {
    trim_end_spec(trim_start_spec(s))
}

/// Where the parameters of an item start: the first `;` outside a quoted
/// string (a backslash inside one escapes the next character), scanning
/// from `i`.
pub open spec fn param_cut(s: Seq<char>, i: int, in_string: bool, escaped: bool) -> int
    decreases s.len() - i,
{
    if i >= s.len() || i < 0 {
        s.len() as int
    } else if escaped {
        param_cut(s, i + 1, in_string, false)
    } else if s[i] == '"' {
        param_cut(s, i + 1, !in_string, false)
    } else if s[i] == '\\' && in_string {
        param_cut(s, i + 1, in_string, true)
    } else if s[i] == ';' && !in_string {
        i
    } else {
        param_cut(s, i + 1, in_string, false)
    }
}

/// `s` without its parameters.
pub open spec fn strip_parameters_spec(s: Seq<char>) -> Seq<char> {
    s.take(param_cut(s, 0, false, false))
}

/// `s` with every non-overlapping pair `a b`, left to right, replaced by `r`.
pub open spec fn replace_pair(s: Seq<char>, a: char, b: char, r: char) -> Seq<char>
    decreases s.len(),
{
    if s.len() == 0 {
        s
    } else if s.len() >= 2 && s[0] == a && s[1] == b {
        seq![r] + replace_pair(s.skip(2), a, b, r)
    } else {
        seq![s[0]] + replace_pair(s.skip(1), a, b, r)
    }
}

/// `s` with every `a` replaced by `r`.
pub open spec fn replace_char(s: Seq<char>, a: char, r: char) -> Seq<char> {
    s.map_values(|c: char| if c == a {
        r
    } else {
        c
    })
}

/// The unescaping of a quoted string: `\\` to `\`, `\"` to `"`, done as
/// three replacements through a NUL placeholder (a NUL of the input comes
/// out as `\` too).
pub open spec fn unescape_spec(s: Seq<char>) -> Seq<char> {
    replace_char(
        replace_pair(replace_pair(s, '\\', '\\', '\0'), '\\', '"', '"'),
        '\0',
        '\\',
    )
}

/// The string an item holds: after trimming and dropping parameters, a
/// quoted string, unescaped; `None` for any other item.
pub open spec fn item_string_spec(s: Seq<char>) -> Option<Seq<char>> {
    let v = trim_spec(strip_parameters_spec(trim_spec(s)));
    if v.len() >= 2 && v[0] == '"' && v.last() == '"' {
        Some(unescape_spec(v.subrange(1, v.len() - 1)))
    } else {
        None
    }
}

/// The index of the first `c` in `s`.
pub open spec fn first_char_index(s: Seq<char>, c: char) -> Option<int>
    decreases s.len(),
{
    if s.len() == 0 {
        None
    } else if s.last() == c && first_char_index(s.drop_last(), c) is None {
        Some(s.len() - 1)
    } else {
        first_char_index(s.drop_last(), c)
    }
}

/// The first index of `c`, when there is one, is in range, holds `c`, and
/// no earlier index does; when there is none, no index holds `c`.
pub proof fn lemma_first_char_index(s: Seq<char>, c: char)
    ensures
        first_char_index(s, c) matches Some(k) ==> 0 <= k < s.len() && s[k] == c && forall|j: int|
            0 <= j < k ==> s[j] != c,
        first_char_index(s, c) is None ==> forall|j: int| 0 <= j < s.len() ==> s[j] != c,
    decreases s.len(),
{
    if s.len() > 0 {
        let d = s.drop_last();
        lemma_first_char_index(d, c);
        assert(forall|j: int| 0 <= j < d.len() ==> d[j] == s[j]);
    }
}

/// The members of `s` split at each `,`.
pub open spec fn split_commas(s: Seq<char>) -> Seq<Seq<char>>
    decreases s.len(),
{
    match first_char_index(s, ',') {
        Some(k) => {
            proof {
                lemma_first_char_index(s, ',');
            }
            seq![s.take(k)] + split_commas(s.skip(k + 1))
        },
        None => seq![s],
    }
}

/// Reading list members in order onto `acc`: empty members are skipped,
/// string members kept, and any other member, or a member past the limit,
/// voids the whole list (`None`).
pub open spec fn list_fold(items: Seq<Seq<char>>, acc: Seq<Seq<char>>) -> Option<Seq<Seq<char>>>
    decreases items.len(),
{
    if items.len() == 0 {
        Some(acc)
    } else if acc.len() >= MAX_SF_ELEMENTS {
        None
    } else if trim_spec(items[0]).len() == 0 {
        list_fold(items.skip(1), acc)
    } else {
        match item_string_spec(trim_spec(items[0])) {
            Some(x) => list_fold(items.skip(1), acc.push(x)),
            None => None,
        }
    }
}

/// A control character (0x00 to 0x1f, or 0x7f).
pub open spec fn is_control(c: char) -> bool {
    (c as u32) < 0x20 || c as u32 == 0x7f
}

/// The strings of a list of `byte_len` bytes; empty when the list is too
/// long, holds a control character or a member that is no string.
pub open spec fn list_strings_spec(s: Seq<char>, byte_len: nat) -> Seq<Seq<char>> {
    if byte_len > MAX_SF_INPUT_LEN || exists|i: int| 0 <= i < s.len() && is_control(#[trigger] s[i]) {
        seq![]
    } else {
        match list_fold(split_commas(s), seq![]) {
            Some(r) => r,
            None => seq![],
        }
    }
}

fn is_ws(c: char) -> (r: bool)
    ensures
        r == is_white_space(c),
{
    let u = c as u32;
    (0x09 <= u && u <= 0x0d) || u == 0x20 || u == 0x85 || u == 0xa0 || u == 0x1680 || (0x2000 <= u
        && u <= 0x200a) || u == 0x2028 || u == 0x2029 || u == 0x202f || u == 0x205f || u == 0x3000
}

/// The bounds `lo..hi` of `s[from..to]` without leading or trailing white space.
fn trim_bounds(s: &[char], from: usize, to: usize) -> (r: (usize, usize))
    requires
        from <= to <= s@.len(),
    ensures
        from <= r.0 <= r.1 <= to,
        s@.subrange(r.0 as int, r.1 as int) == trim_spec(s@.subrange(from as int, to as int)),
{
    let mut lo = from;
    while lo < to && is_ws(s[lo])
        invariant
            from <= lo <= to <= s@.len(),
            trim_start_spec(s@.subrange(from as int, to as int)) == trim_start_spec(
                s@.subrange(lo as int, to as int),
            ),
        decreases to - lo,
    {
        assert(s@.subrange(lo as int, to as int).skip(1) =~= s@.subrange(lo + 1, to as int));
        lo = lo + 1;
    }
    assert(trim_start_spec(s@.subrange(lo as int, to as int)) == s@.subrange(lo as int, to as int));
    let mut hi = to;
    while hi > lo && is_ws(s[hi - 1])
        invariant
            from <= lo <= hi <= to <= s@.len(),
            trim_spec(s@.subrange(from as int, to as int)) == trim_end_spec(
                s@.subrange(lo as int, hi as int),
            ),
        decreases hi - lo,
    {
        assert(s@.subrange(lo as int, hi as int).drop_last() =~= s@.subrange(lo as int, hi - 1));
        hi = hi - 1;
    }
    (lo, hi)
}

/// The end of the item `s[from..to]` without its parameters.
fn param_end(s: &[char], from: usize, to: usize) -> (r: usize)
    requires
        from <= to <= s@.len(),
    ensures
        from <= r <= to,
        r - from == param_cut(s@.subrange(from as int, to as int), 0, false, false),
{
    let ghost v = s@.subrange(from as int, to as int);
    let mut in_string = false;
    let mut escaped = false;
    let mut i = from;
    while i < to
        invariant
            from <= i <= to <= s@.len(),
            v == s@.subrange(from as int, to as int),
            param_cut(v, 0, false, false) == param_cut(v, i - from, in_string, escaped),
        decreases to - i,
    {
        let c = s[i];
        assert(v[i - from] == c);
        if escaped {
            escaped = false;
        } else if c == '"' {
            in_string = !in_string;
        } else if c == '\\' && in_string {
            escaped = true;
        } else if c == ';' && !in_string {
            return i;
        }
        i = i + 1;
    }
    i
}

/// Replaces each non-overlapping pair `a b` in `s` by `r`.
fn replace_pair_vec(s: &[char], a: char, b: char, r: char) -> (out: Vec<char>)
    ensures
        out@ == replace_pair(s@, a, b, r),
{
    let mut out: Vec<char> = Vec::new();
    let mut i: usize = 0;
    assert(s@.skip(0) =~= s@);
    assert(out@ + replace_pair(s@, a, b, r) =~= replace_pair(s@, a, b, r));
    while i < s.len()
        invariant
            i <= s@.len(),
            out@ + replace_pair(s@.skip(i as int), a, b, r) == replace_pair(s@, a, b, r),
        decreases s.len() - i,
    {
        let ghost rest = s@.skip(i as int);
        if i + 1 < s.len() && s[i] == a && s[i + 1] == b {
            assert(rest.skip(2) =~= s@.skip(i + 2));
            out.push(r);
            assert(out@ + replace_pair(s@.skip(i + 2), a, b, r) =~= out@.drop_last() + (seq![r]
                + replace_pair(rest.skip(2), a, b, r)));
            i = i + 2;
        } else {
            assert(rest.skip(1) =~= s@.skip(i + 1));
            out.push(s[i]);
            assert(out@ + replace_pair(s@.skip(i + 1), a, b, r) =~= out@.drop_last() + (seq![
                rest[0]] + replace_pair(rest.skip(1), a, b, r)));
            i = i + 1;
        }
    }
    assert(s@.skip(i as int) =~= Seq::<char>::empty());
    assert(out@ + Seq::<char>::empty() =~= out@);
    out
}

/// Replaces each `a` in `s` by `r`.
fn replace_char_vec(s: &[char], a: char, r: char) -> (out: Vec<char>)
    ensures
        out@ == replace_char(s@, a, r),
{
    let mut out: Vec<char> = Vec::new();
    let mut i: usize = 0;
    while i < s.len()
        invariant
            i <= s@.len(),
            out@ == replace_char(s@.take(i as int), a, r),
        decreases s.len() - i,
    {
        out.push(if s[i] == a {
            r
        } else {
            s[i]
        });
        assert(replace_char(s@.take(i + 1), a, r) =~= replace_char(s@.take(i as int), a, r).push(
            if s@[i as int] == a {
                r
            } else {
                s@[i as int]
            },
        ));
        i = i + 1;
    }
    assert(s@.take(i as int) =~= s@);
    out
}

/// The string held by the item `s[from..to]`, as characters.
fn item_chars(s: &[char], from: usize, to: usize) -> (r: Option<Vec<char>>)
    requires
        from <= to <= s@.len(),
    ensures
        match item_string_spec(s@.subrange(from as int, to as int)) {
            Some(x) => r matches Some(v) && v@ == x,
            None => r is None,
        },
{
    let ghost item = s@.subrange(from as int, to as int);
    let (lo, hi) = trim_bounds(s, from, to);
    let cut = param_end(s, lo, hi);
    assert(s@.subrange(lo as int, cut as int) =~= strip_parameters_spec(
        s@.subrange(lo as int, hi as int),
    ));
    let (lo2, hi2) = trim_bounds(s, lo, cut);
    let ghost v = s@.subrange(lo2 as int, hi2 as int);
    assert(v == trim_spec(strip_parameters_spec(trim_spec(item))));
    if hi2 - lo2 >= 2 && s[lo2] == '"' && s[hi2 - 1] == '"' {
        let inner = vstd::slice::slice_to_vec(&s[lo2 + 1..hi2 - 1]);
        assert(inner@ =~= v.subrange(1, v.len() - 1));
        let a = replace_pair_vec(inner.as_slice(), '\\', '\\', '\0');
        let b = replace_pair_vec(a.as_slice(), '\\', '"', '"');
        let c = replace_char_vec(b.as_slice(), '\0', '\\');
        Some(c)
    } else {
        None
    }
}

/// The string a Structured Fields item holds, parameters ignored; `None`
/// when the item is no quoted string.
pub fn parse_sf_item_string(value: &str) -> (r: Option<String>)
    ensures
        match item_string_spec(value@) {
            Some(x) => r matches Some(s) && s@ == x,
            None => r is None,
        },
{
    let chars = chars_of(value);
    assert(chars@.subrange(0, chars@.len() as int) =~= chars@);
    match item_chars(chars.as_slice(), 0, chars.len()) {
        Some(v) => Some(string_from_chars(v.as_slice())),
        None => None,
    }
}

/// The strings of a list item by item: `acc` as views.
pub open spec fn string_views(v: Seq<String>) -> Seq<Seq<char>> {
    v.map_values(|s: String| s@)
}

/// The index of the first comma in `s[start..]`, or the length.
fn next_comma(s: &[char], start: usize) -> (k: usize)
    requires
        start <= s@.len(),
    ensures
        start <= k <= s@.len(),
        k < s@.len() ==> s@[k as int] == ',',
        forall|j: int| start <= j < k ==> s@[j] != ',',
        first_char_index(s@.skip(start as int), ',') == (if k < s@.len() {
            Some(k - start)
        } else {
            None::<int>
        }),
{
    let mut k = start;
    while k < s.len() && s[k] != ','
        invariant
            start <= k <= s@.len(),
            forall|j: int| start <= j < k ==> s@[j] != ',',
        decreases s.len() - k,
    {
        k = k + 1;
    }
    proof {
        let rest = s@.skip(start as int);
        lemma_first_char_index(rest, ',');
        match first_char_index(rest, ',') {
            Some(m) => {
                if m < k - start {
                    assert(rest[m] == s@[start + m]);
                }
                if m > k - start {
                    assert(rest[k - start] == ',');
                }
            },
            None => {
                if k < s@.len() {
                    assert(rest[k - start] == ',');
                }
            },
        }
    }
    k
}

/// The strings of a Structured Fields list, parameters ignored; empty when
/// the list is longer than 8192 bytes, holds a control character, has more
/// than 256 members, or has a member that is no string
/// (draft-ietf-webtrans-http3-15 Section 3.3).
pub fn parse_sf_list_strings(value: &str) -> (r: Vec<String>)
    ensures
        string_views(r@) == list_strings_spec(value@, value.len() as nat),
{
    if value.len() > MAX_SF_INPUT_LEN {
        assert(string_views(Seq::<String>::empty()) =~= Seq::<Seq<char>>::empty());
        return Vec::new();
    }
    let chars = chars_of(value);
    let ghost s = chars@;
    let mut i: usize = 0;
    while i < chars.len()
        invariant
            i <= chars@.len(),
            chars@ == value@,
            value.len() <= MAX_SF_INPUT_LEN,
            forall|j: int| 0 <= j < i ==> !is_control(#[trigger] chars@[j]),
        decreases chars.len() - i,
    {
        let u = chars[i] as u32;
        if u < 0x20 || u == 0x7f {
            assert(is_control(value@[i as int]));
            assert(string_views(Seq::<String>::empty()) =~= Seq::<Seq<char>>::empty());
            return Vec::new();
        }
        i = i + 1;
    }
    let mut result: Vec<String> = Vec::new();
    let ghost mut acc: Seq<Seq<char>> = seq![];
    let mut start: usize = 0;
    assert(s.skip(0) =~= s);
    loop
        invariant_except_break
            start <= s.len(),
            s == chars@,
            s == value@,
            value.len() <= MAX_SF_INPUT_LEN,
            forall|j: int| 0 <= j < s.len() ==> !is_control(#[trigger] s[j]),
            string_views(result@) == acc,
            list_fold(split_commas(s), seq![]) == list_fold(split_commas(s.skip(start as int)), acc),
        ensures
            string_views(result@) == acc,
            list_fold(split_commas(s), seq![]) == Some(acc),
            s == value@,
            value.len() <= MAX_SF_INPUT_LEN,
            forall|j: int| 0 <= j < s.len() ==> !is_control(#[trigger] s[j]),
        decreases s.len() - start,
    {
        let k = next_comma(chars.as_slice(), start);
        let ghost rest = s.skip(start as int);
        let ghost items = split_commas(rest);
        let ghost tail = if k < s.len() {
            split_commas(s.skip(k + 1))
        } else {
            Seq::<Seq<char>>::empty()
        };
        proof {
            assert(rest.take(k - start) =~= s.subrange(start as int, k as int));
            if k < s.len() {
                assert(rest.skip(k - start + 1) =~= s.skip(k + 1));
            } else {
                assert(rest =~= s.subrange(start as int, k as int));
            }
            assert(items =~= seq![s.subrange(start as int, k as int)] + tail);
            assert(items.skip(1) =~= tail);
            assert(items[0] == s.subrange(start as int, k as int));
        }
        if result.len() >= MAX_SF_ELEMENTS {
            assert(string_views(Seq::<String>::empty()) =~= Seq::<Seq<char>>::empty());
            return Vec::new();
        }
        let (lo, hi) = trim_bounds(chars.as_slice(), start, k);
        if lo < hi {
            match item_chars(chars.as_slice(), lo, hi) {
                Some(v) => {
                    let st = string_from_chars(v.as_slice());
                    result.push(st);
                    proof {
                        acc = acc.push(v@);
                        assert(string_views(result@) =~= acc);
                    }
                },
                None => {
                    assert(string_views(Seq::<String>::empty()) =~= Seq::<Seq<char>>::empty());
                    return Vec::new();
                },
            }
        }
        if k == chars.len() {
            assert(list_fold(tail, acc) == Some(acc));
            break;
        }
        start = k + 1;
    }
    result
}

} // verus!
