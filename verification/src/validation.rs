//! HTTP/3 message validation (RFC 9114 Section 4.1.2).
//!
//! Checks that a received or outgoing header section is well-formed as a
//! whole: the order, presence and uniqueness of pseudo-headers, the CONNECT
//! forms, the syntax of `:path` and `:authority`, connection-specific
//! fields, `content-length` against the body, and field section sizes.
//! Each field is checked again on its own here, since fields decoded off
//! the wire skip the checks of [`Header::new`].

use vstd::prelude::*;
use crate::error::{Error, ErrorCode, Role};
use crate::qpack::header::{
    Header, HeaderView, is_tchar_spec, is_lowercase_token_byte_spec, is_field_vchar_spec,
    is_field_value_byte_spec, is_ascii_alpha_spec, is_ascii_digit_spec, is_scheme_byte_spec,
    all_tchar_in, upgrade_token_ok, name_method, name_scheme, name_path, name_authority,
    name_protocol, name_status, lit_method, lit_scheme, lit_path, lit_authority, lit_protocol,
    lit_status, bytes_eq, is_tchar, is_field_vchar, is_lowercase_token_byte, all_tchar,
    check_upgrade_token, CheckResult,
};

verus! {

/// The bytes `CONNECT`.
pub open spec fn word_connect() -> Seq<u8> {
    seq![67u8, 79u8, 78u8, 78u8, 69u8, 67u8, 84u8]
}

/// The bytes `CONNECT`, as a vector.
pub fn lit_connect() -> (r: Vec<u8>)
    ensures
        r@ == word_connect(),
{
    vec![67u8, 79u8, 78u8, 78u8, 69u8, 67u8, 84u8]
}

/// The bytes `OPTIONS`.
pub open spec fn word_options() -> Seq<u8> {
    seq![79u8, 80u8, 84u8, 73u8, 79u8, 78u8, 83u8]
}

/// The bytes `OPTIONS`, as a vector.
pub fn lit_options() -> (r: Vec<u8>)
    ensures
        r@ == word_options(),
{
    vec![79u8, 80u8, 84u8, 73u8, 79u8, 78u8, 83u8]
}

/// The bytes `*`.
pub open spec fn word_asterisk() -> Seq<u8> {
    seq![42u8]
}

/// The bytes `*`, as a vector.
pub fn lit_asterisk() -> (r: Vec<u8>)
    ensures
        r@ == word_asterisk(),
{
    vec![42u8]
}

/// The bytes `http`.
pub open spec fn word_http() -> Seq<u8> {
    seq![104u8, 116u8, 116u8, 112u8]
}

/// The bytes `http`, as a vector.
pub fn lit_http() -> (r: Vec<u8>)
    ensures
        r@ == word_http(),
{
    vec![104u8, 116u8, 116u8, 112u8]
}

/// The bytes `https`.
pub open spec fn word_https() -> Seq<u8> {
    seq![104u8, 116u8, 116u8, 112u8, 115u8]
}

/// The bytes `https`, as a vector.
pub fn lit_https() -> (r: Vec<u8>)
    ensures
        r@ == word_https(),
{
    vec![104u8, 116u8, 116u8, 112u8, 115u8]
}

/// The bytes `te`.
pub open spec fn word_te() -> Seq<u8> {
    seq![116u8, 101u8]
}

/// The bytes `te`, as a vector.
pub fn lit_te() -> (r: Vec<u8>)
    ensures
        r@ == word_te(),
{
    vec![116u8, 101u8]
}

/// The bytes `trailers`.
pub open spec fn word_trailers() -> Seq<u8> {
    seq![116u8, 114u8, 97u8, 105u8, 108u8, 101u8, 114u8, 115u8]
}

/// The bytes `trailers`, as a vector.
pub fn lit_trailers() -> (r: Vec<u8>)
    ensures
        r@ == word_trailers(),
{
    vec![116u8, 114u8, 97u8, 105u8, 108u8, 101u8, 114u8, 115u8]
}

/// The bytes `host`.
pub open spec fn word_host() -> Seq<u8> {
    seq![104u8, 111u8, 115u8, 116u8]
}

/// The bytes `host`, as a vector.
pub fn lit_host() -> (r: Vec<u8>)
    ensures
        r@ == word_host(),
{
    vec![104u8, 111u8, 115u8, 116u8]
}

/// The bytes `content-length`.
pub open spec fn word_content_length() -> Seq<u8> {
    seq![99u8, 111u8, 110u8, 116u8, 101u8, 110u8, 116u8, 45u8, 108u8, 101u8, 110u8, 103u8, 116u8, 104u8]
}

/// The bytes `content-length`, as a vector.
pub fn lit_content_length() -> (r: Vec<u8>)
    ensures
        r@ == word_content_length(),
{
    vec![99u8, 111u8, 110u8, 116u8, 101u8, 110u8, 116u8, 45u8, 108u8, 101u8, 110u8, 103u8, 116u8, 104u8]
}

/// The bytes `connection`.
pub open spec fn word_connection() -> Seq<u8> {
    seq![99u8, 111u8, 110u8, 110u8, 101u8, 99u8, 116u8, 105u8, 111u8, 110u8]
}

/// The bytes `connection`, as a vector.
pub fn lit_connection() -> (r: Vec<u8>)
    ensures
        r@ == word_connection(),
{
    vec![99u8, 111u8, 110u8, 110u8, 101u8, 99u8, 116u8, 105u8, 111u8, 110u8]
}

/// The bytes `keep-alive`.
pub open spec fn word_keep_alive() -> Seq<u8> {
    seq![107u8, 101u8, 101u8, 112u8, 45u8, 97u8, 108u8, 105u8, 118u8, 101u8]
}

/// The bytes `keep-alive`, as a vector.
pub fn lit_keep_alive() -> (r: Vec<u8>)
    ensures
        r@ == word_keep_alive(),
{
    vec![107u8, 101u8, 101u8, 112u8, 45u8, 97u8, 108u8, 105u8, 118u8, 101u8]
}

/// The bytes `proxy-connection`.
pub open spec fn word_proxy_connection() -> Seq<u8> {
    seq![112u8, 114u8, 111u8, 120u8, 121u8, 45u8, 99u8, 111u8, 110u8, 110u8, 101u8, 99u8, 116u8, 105u8, 111u8, 110u8]
}

/// The bytes `proxy-connection`, as a vector.
pub fn lit_proxy_connection() -> (r: Vec<u8>)
    ensures
        r@ == word_proxy_connection(),
{
    vec![112u8, 114u8, 111u8, 120u8, 121u8, 45u8, 99u8, 111u8, 110u8, 110u8, 101u8, 99u8, 116u8, 105u8, 111u8, 110u8]
}

/// The bytes `transfer-encoding`.
pub open spec fn word_transfer_encoding() -> Seq<u8> {
    seq![116u8, 114u8, 97u8, 110u8, 115u8, 102u8, 101u8, 114u8, 45u8, 101u8, 110u8, 99u8, 111u8, 100u8, 105u8, 110u8, 103u8]
}

/// The bytes `transfer-encoding`, as a vector.
pub fn lit_transfer_encoding() -> (r: Vec<u8>)
    ensures
        r@ == word_transfer_encoding(),
{
    vec![116u8, 114u8, 97u8, 110u8, 115u8, 102u8, 101u8, 114u8, 45u8, 101u8, 110u8, 99u8, 111u8, 100u8, 105u8, 110u8, 103u8]
}

/// The bytes `upgrade`.
pub open spec fn word_upgrade() -> Seq<u8> {
    seq![117u8, 112u8, 103u8, 114u8, 97u8, 100u8, 101u8]
}

/// The bytes `upgrade`, as a vector.
pub fn lit_upgrade() -> (r: Vec<u8>)
    ensures
        r@ == word_upgrade(),
{
    vec![117u8, 112u8, 103u8, 114u8, 97u8, 100u8, 101u8]
}

/// The bytes `101`.
pub open spec fn word_status_101() -> Seq<u8> {
    seq![49u8, 48u8, 49u8]
}

/// The bytes `101`, as a vector.
pub fn lit_status_101() -> (r: Vec<u8>)
    ensures
        r@ == word_status_101(),
{
    vec![49u8, 48u8, 49u8]
}


// ---------------------------------------------------------------------------
// Field syntax
// ---------------------------------------------------------------------------

/// The abstract contents of a header list.
pub open spec fn views(hs: Seq<Header>) -> Seq<HeaderView> {
    hs.map_values(|h: Header| h@)
}

/// A name that starts with `:`.
pub open spec fn is_pseudo_name(n: Seq<u8>) -> bool {
    n.len() > 0 && n[0] == 0x3a
}

/// A field name: a non-empty token of lowercase characters (RFC 9110
/// Section 5.1, RFC 9114 Section 4.2).
pub open spec fn field_name_ok(n: Seq<u8>) -> bool {
    n.len() > 0 && forall|i: int| 0 <= i < n.len() ==> #[trigger] is_lowercase_token_byte_spec(n[i])
}

/// A field value: field-vchar, SP and HTAB, starting and ending with
/// field-vchar (RFC 9110 Section 5.5); empty is allowed.
pub open spec fn field_value_ok(v: Seq<u8>) -> bool {
    v.len() == 0 || (is_field_vchar_spec(v[0]) && is_field_vchar_spec(v.last()) && forall|i: int|
        0 <= i < v.len() ==> #[trigger] is_field_value_byte_spec(v[i]))
}

/// A method: a token (RFC 9110 Section 9.1).
pub open spec fn method_ok(m: Seq<u8>) -> bool {
    m.len() > 0 && all_tchar_in(m, 0, m.len() as int)
}

/// A URI scheme (RFC 3986 Section 3.1).
pub open spec fn scheme_ok(s: Seq<u8>) -> bool {
    s.len() > 0 && is_ascii_alpha_spec(s[0]) && forall|i: int|
        1 <= i < s.len() ==> #[trigger] is_scheme_byte_spec(s[i])
}

/// A scheme whose URIs have a mandatory authority: `http` or `https`.
pub open spec fn is_http_scheme(s: Option<Seq<u8>>) -> bool {
    s == Some(word_http()) || s == Some(word_https())
}

/// An http(s) `:path`: path-absolute, or `*` for OPTIONS (RFC 9114 Section 4.3.1).
pub open spec fn http_path_ok(p: Seq<u8>, m: Seq<u8>) -> bool {
    p.len() > 0 && ((m == word_options() && p == word_asterisk()) || p[0] == 0x2f)
}

/// A connection-specific field name, which HTTP/3 forbids (RFC 9114 Section 4.2).
pub open spec fn is_connection_specific_spec(n: Seq<u8>) -> bool {
    n == word_connection() || n == word_keep_alive() || n == word_proxy_connection() || n
        == word_transfer_encoding() || n == word_upgrade()
}

/// A hexadecimal digit.
pub open spec fn is_hex_spec(b: u8) -> bool {
    is_ascii_digit_spec(b) || (0x41 <= b <= 0x46) || (0x61 <= b <= 0x66)
}

/// An ASCII letter or digit.
pub open spec fn is_alnum_spec(b: u8) -> bool {
    is_ascii_alpha_spec(b) || is_ascii_digit_spec(b)
}

/// A sub-delims character (RFC 3986 Section 2.2).
pub open spec fn is_sub_delim_spec(b: u8) -> bool {
    b == 0x21 || b == 0x24 || b == 0x26 || b == 0x27 || b == 0x28 || b == 0x29 || b == 0x2a
        || b == 0x2b || b == 0x2c || b == 0x3b || b == 0x3d
}

/// A reg-name character other than the `%` of pct-encoding: unreserved or
/// sub-delims (RFC 3986 Section 3.2.2), or `%`.
pub open spec fn is_reg_name_char_spec(b: u8) -> bool {
    is_alnum_spec(b) || b == 0x2d || b == 0x2e || b == 0x5f || b == 0x7e || is_sub_delim_spec(b)
        || b == 0x25
}

/// The rest of a reg-name from index `i` on, with `%` followed by two hex digits.
pub open spec fn reg_name_from(s: Seq<u8>, i: int) -> bool
    decreases s.len() - i,
{
    if i >= s.len() || i < 0 {
        true
    } else if s[i] == 0x25 {
        i + 2 < s.len() && is_hex_spec(s[i + 1]) && is_hex_spec(s[i + 2]) && reg_name_from(
            s,
            i + 3,
        )
    } else if is_reg_name_char_spec(s[i]) {
        reg_name_from(s, i + 1)
    } else {
        false
    }
}

/// A reg-name (RFC 3986 Section 3.2.2).
pub open spec fn reg_name_ok(s: Seq<u8>) -> bool {
    reg_name_from(s, 0)
}

/// A character of the address part of an IPvFuture literal.
pub open spec fn is_ipvfuture_char_spec(b: u8) -> bool {
    is_hex_spec(b) || b == 0x2e || b == 0x3a || b == 0x2d || b == 0x5f || b == 0x7e
        || is_sub_delim_spec(b)
}

/// The inside of an IP-literal: IPvFuture (`v`, then at least three
/// characters including a `.`), else hex digits, `:` and `.` only.
pub open spec fn ip_literal_ok(c: Seq<u8>) -> bool {
    if c.len() == 0 {
        false
    } else if c[0] == 0x76 {
        c.len() >= 4 && (exists|k: int| 1 <= k < c.len() && #[trigger] c[k] == 0x2e) && forall|
            k: int,
        | 1 <= k < c.len() ==> #[trigger] is_ipvfuture_char_spec(c[k])
    } else {
        forall|k: int| 0 <= k < c.len() ==> #[trigger] is_hex_spec(c[k]) || c[k] == 0x3a || c[k]
            == 0x2e
    }
}

/// Every byte of `s` in `lo..hi` is a digit.
pub open spec fn digits_in(s: Seq<u8>, lo: int, hi: int) -> bool {
    forall|k: int| lo <= k < hi ==> #[trigger] is_ascii_digit_spec(s[k])
}

/// The first index of `b` in `s`.
pub open spec fn first_index_of(s: Seq<u8>, b: u8) -> Option<int>
    decreases s.len(),
{
    if s.len() == 0 {
        None
    } else if s.last() == b && first_index_of(s.drop_last(), b) is None {
        Some(s.len() - 1)
    } else {
        first_index_of(s.drop_last(), b)
    }
}

/// The last index of `b` in `s`.
pub open spec fn last_index_of(s: Seq<u8>, b: u8) -> Option<int>
    decreases s.len(),
{
    if s.len() == 0 {
        None
    } else if s.last() == b {
        Some(s.len() - 1)
    } else {
        last_index_of(s.drop_last(), b)
    }
}

/// A URI authority `host [":" port]` as `:authority` or Host carries it
/// (RFC 9114 Section 4.3.1, RFC 3986 Section 3.2).
pub open spec fn authority_ok(v: Seq<u8>) -> bool {
    if v.len() == 0 {
        false
    } else if v[0] == 0x5b {
        match first_index_of(v, 0x5d) {
            None => false,
            Some(e) => ip_literal_ok(v.subrange(1, e)) && (e + 1 == v.len() || (v[e + 1] == 0x3a
                && digits_in(v, e + 2, v.len() as int))),
        }
    } else {
        let lc = last_index_of(v, 0x3a);
        if lc is Some && lc->0 + 1 < v.len() && digits_in(v, lc->0 + 1, v.len() as int) {
            lc->0 > 0 && reg_name_ok(v.subrange(0, lc->0))
        } else {
            reg_name_ok(v)
        }
    }
}

/// The authority-form `host ":" port` of a plain CONNECT (RFC 9114 Section 4.4).
pub open spec fn connect_authority_ok(v: Seq<u8>) -> bool {
    if v.len() == 0 {
        false
    } else if v[0] == 0x5b {
        match first_index_of(v, 0x5d) {
            None => false,
            Some(e) => e + 2 < v.len() && v[e + 1] == 0x3a && ip_literal_ok(v.subrange(1, e))
                && digits_in(v, e + 2, v.len() as int),
        }
    } else {
        match last_index_of(v, 0x3a) {
            None => false,
            Some(c) => c > 0 && c + 1 < v.len() && reg_name_ok(v.subrange(0, c)) && digits_in(
                v,
                c + 1,
                v.len() as int,
            ),
        }
    }
}

// ---------------------------------------------------------------------------
// Executable field syntax checks
// ---------------------------------------------------------------------------

/// Whether every byte of `s` in `lo..hi` is a digit.
fn all_digits(s: &[u8], lo: usize, hi: usize) -> (r: bool)
    requires
        lo <= hi <= s@.len(),
    ensures
        r == digits_in(s@, lo as int, hi as int),
{
    let mut i = lo;
    while i < hi
        invariant
            lo <= i <= hi,
            hi <= s@.len(),
            digits_in(s@, lo as int, i as int),
        decreases hi - i,
    {
        if !(0x30 <= s[i] && s[i] <= 0x39) {
            assert(!is_ascii_digit_spec(s@[i as int]));
            return false;
        }
        i = i + 1;
    }
    true
}

/// Whether `name` is a valid field name.
pub fn is_valid_field_name(name: &[u8]) -> (r: bool)
    ensures
        r == field_name_ok(name@),
{
    if name.len() == 0 {
        return false;
    }
    let mut i: usize = 0;
    while i < name.len()
        invariant
            i <= name@.len(),
            forall|k: int| 0 <= k < i ==> #[trigger] is_lowercase_token_byte_spec(name@[k]),
        decreases name.len() - i,
    {
        if !is_lowercase_token_byte(name[i]) {
            return false;
        }
        i = i + 1;
    }
    true
}

/// Whether `value` is a valid field value.
pub fn is_valid_field_value(value: &[u8]) -> (r: bool)
    ensures
        r == field_value_ok(value@),
{
    if value.len() == 0 {
        return true;
    }
    if !is_field_vchar(value[0]) || !is_field_vchar(value[value.len() - 1]) {
        return false;
    }
    let mut i: usize = 0;
    while i < value.len()
        invariant
            i <= value@.len(),
            forall|k: int| 0 <= k < i ==> #[trigger] is_field_value_byte_spec(value@[k]),
        decreases value.len() - i,
    {
        let b = value[i];
        if !(is_field_vchar(b) || b == 0x20 || b == 0x09) {
            assert(!is_field_value_byte_spec(value@[i as int]));
            return false;
        }
        i = i + 1;
    }
    true
}

/// Whether `method` is a valid method token.
pub fn is_valid_method(method: &[u8]) -> (r: bool)
    ensures
        r == method_ok(method@),
{
    method.len() > 0 && all_tchar(method, 0, method.len())
}

/// Whether `scheme` is a valid URI scheme.
pub fn is_valid_scheme(scheme: &[u8]) -> (r: bool)
    ensures
        r == scheme_ok(scheme@),
{
    if scheme.len() == 0 {
        return false;
    }
    let first = scheme[0];
    if !((0x41 <= first && first <= 0x5a) || (0x61 <= first && first <= 0x7a)) {
        return false;
    }
    let mut i: usize = 1;
    while i < scheme.len()
        invariant
            1 <= i <= scheme@.len(),
            forall|k: int| 1 <= k < i ==> #[trigger] is_scheme_byte_spec(scheme@[k]),
        decreases scheme.len() - i,
    {
        let b = scheme[i];
        if !((0x41 <= b && b <= 0x5a) || (0x61 <= b && b <= 0x7a) || (0x30 <= b && b <= 0x39) || b
            == 0x2b || b == 0x2d || b == 0x2e) {
            assert(!is_scheme_byte_spec(scheme@[i as int]));
            return false;
        }
        i = i + 1;
    }
    true
}

/// Whether `value` is a valid HTTP Upgrade Token for `:protocol`.
pub fn is_valid_protocol(value: &[u8]) -> (r: bool)
    ensures
        r == upgrade_token_ok(value@),
{
    check_upgrade_token(value) == CheckResult::Valid
}

/// Whether `path` is a valid http(s) `:path` for `method`.
pub fn is_valid_http_path(path: &[u8], method: &[u8]) -> (r: bool)
    ensures
        r == http_path_ok(path@, method@),
{
    if path.len() == 0 {
        return false;
    }
    if bytes_eq(method, lit_options().as_slice()) && bytes_eq(path, lit_asterisk().as_slice()) {
        return true;
    }
    path[0] == 0x2f
}

/// Whether `name` is a connection-specific field name.
pub fn is_connection_specific(name: &[u8]) -> (r: bool)
    ensures
        r == is_connection_specific_spec(name@),
{
    bytes_eq(name, lit_connection().as_slice()) || bytes_eq(name, lit_keep_alive().as_slice())
        || bytes_eq(name, lit_proxy_connection().as_slice()) || bytes_eq(
        name,
        lit_transfer_encoding().as_slice(),
    ) || bytes_eq(name, lit_upgrade().as_slice())
}

fn is_hex(b: u8) -> (r: bool)
    ensures
        r == is_hex_spec(b),
{
    (0x30 <= b && b <= 0x39) || (0x41 <= b && b <= 0x46) || (0x61 <= b && b <= 0x66)
}

fn is_sub_delim(b: u8) -> (r: bool)
    ensures
        r == is_sub_delim_spec(b),
{
    b == 0x21 || b == 0x24 || b == 0x26 || b == 0x27 || b == 0x28 || b == 0x29 || b == 0x2a || b
        == 0x2b || b == 0x2c || b == 0x3b || b == 0x3d
}

/// Whether `b` may stand in a reg-name.
pub fn is_reg_name_char(b: u8) -> (r: bool)
    ensures
        r == is_reg_name_char_spec(b),
{
    (0x41 <= b && b <= 0x5a) || (0x61 <= b && b <= 0x7a) || (0x30 <= b && b <= 0x39) || b == 0x2d
        || b == 0x2e || b == 0x5f || b == 0x7e || is_sub_delim(b) || b == 0x25
}

/// Whether `host` is a valid reg-name.
pub fn is_valid_reg_name(host: &[u8]) -> (r: bool)
    ensures
        r == reg_name_ok(host@),
{
    let mut i: usize = 0;
    while i < host.len()
        invariant
            i <= host@.len(),
            reg_name_ok(host@) == reg_name_from(host@, i as int),
        decreases host.len() - i,
    {
        if host[i] == 0x25 {
            if host.len() - i <= 2 || !is_hex(host[i + 1]) || !is_hex(host[i + 2]) {
                return false;
            }
            i = i + 3;
        } else if is_reg_name_char(host[i]) {
            i = i + 1;
        } else {
            return false;
        }
    }
    true
}

/// Whether `content` is a valid IP-literal inside the brackets.
pub fn is_valid_ip_literal_content(content: &[u8]) -> (r: bool)
    ensures
        r == ip_literal_ok(content@),
{
    if content.len() == 0 {
        return false;
    }
    if content[0] == 0x76 {
        if content.len() < 4 {
            return false;
        }
        let mut has_dot = false;
        let mut i: usize = 1;
        while i < content.len()
            invariant
                1 <= i <= content@.len(),
                content@.len() >= 4,
                has_dot == exists|k: int| 1 <= k < i && #[trigger] content@[k] == 0x2e,
                forall|k: int| 1 <= k < i ==> #[trigger] is_ipvfuture_char_spec(content@[k]),
            decreases content.len() - i,
        {
            let b = content[i];
            if b == 0x2e {
                has_dot = true;
            }
            if !(is_hex(b) || b == 0x2e || b == 0x3a || b == 0x2d || b == 0x5f || b == 0x7e
                || is_sub_delim(b)) {
                assert(!is_ipvfuture_char_spec(content@[i as int]));
                return false;
            }
            i = i + 1;
        }
        return has_dot;
    }
    let mut i: usize = 0;
    while i < content.len()
        invariant
            i <= content@.len(),
            content@.len() > 0,
            content@[0] != 0x76,
            forall|k: int|
                0 <= k < i ==> #[trigger] is_hex_spec(content@[k]) || content@[k] == 0x3a
                    || content@[k] == 0x2e,
        decreases content.len() - i,
    {
        let b = content[i];
        if !(is_hex(b) || b == 0x3a || b == 0x2e) {
            assert(!(is_hex_spec(content@[i as int]) || content@[i as int] == 0x3a || content@[
                i as int] == 0x2e));
            return false;
        }
        i = i + 1;
    }
    true
}

/// The first index of `b` in `s`.
pub fn first_index(s: &[u8], b: u8) -> (r: Option<usize>)
    ensures
        match first_index_of(s@, b) {
            Some(k) => r == Some(k as usize),
            None => r is None,
        },
{
    let mut i: usize = 0;
    while i < s.len()
        invariant
            i <= s@.len(),
            first_index_of(s@.take(i as int), b) is None,
        decreases s.len() - i,
    {
        proof {
            lemma_first_index_step(s@, b, i as int);
        }
        if s[i] == b {
            proof {
                lemma_first_index_found(s@, b, i as int);
            }
            return Some(i);
        }
        i = i + 1;
    }
    assert(s@.take(s@.len() as int) =~= s@);
    None
}

proof fn lemma_first_index_step(s: Seq<u8>, b: u8, i: int)
    requires
        0 <= i < s.len(),
    ensures
        s.take(i + 1).drop_last() == s.take(i),
        s.take(i + 1).last() == s[i],
{
    assert(s.take(i + 1).drop_last() =~= s.take(i));
}

/// Once the first occurrence is found in a prefix, it is the first in the whole.
proof fn lemma_first_index_found(s: Seq<u8>, b: u8, i: int)
    requires
        0 <= i < s.len(),
        first_index_of(s.take(i), b) is None,
        s[i] == b,
    ensures
        first_index_of(s, b) == Some(i),
    decreases s.len(),
{
    if s.len() == i + 1 {
        assert(s.drop_last() =~= s.take(i));
    } else {
        assert(s.drop_last().take(i) =~= s.take(i));
        lemma_first_index_found(s.drop_last(), b, i);
    }
}

/// The last index of `b` in `s`.
pub fn last_index(s: &[u8], b: u8) -> (r: Option<usize>)
    ensures
        match last_index_of(s@, b) {
            Some(k) => r == Some(k as usize),
            None => r is None,
        },
{
    let mut i: usize = s.len();
    assert(s@.take(i as int) =~= s@);
    while i > 0
        invariant
            i <= s@.len(),
            last_index_of(s@, b) == last_index_of(s@.take(i as int), b),
        decreases i,
    {
        assert(s@.take(i as int).drop_last() =~= s@.take(i - 1));
        if s[i - 1] == b {
            return Some(i - 1);
        }
        i = i - 1;
    }
    None
}

/// Whether `value` is a valid URI authority for `:authority` or Host.
pub fn is_valid_authority(value: &[u8]) -> (r: bool)
    ensures
        r == authority_ok(value@),
{
    if value.len() == 0 {
        return false;
    }
    if value[0] == 0x5b {
        let e = match first_index(value, 0x5d) {
            None => {
                return false;
            },
            Some(e) => e,
        };
        proof {
            lemma_first_index_bounds(value@, 0x5d);
        }
        if e == 0 {
            return false;
        }
        if !is_valid_ip_literal_content(&value[1..e]) {
            return false;
        }
        if e + 1 == value.len() {
            return true;
        }
        if value[e + 1] != 0x3a {
            return false;
        }
        return all_digits(value, e + 2, value.len());
    }
    match last_index(value, 0x3a) {
        Some(c) => {
            proof {
                lemma_last_index_bounds(value@, 0x3a);
            }
            if c + 1 < value.len() && all_digits(value, c + 1, value.len()) {
                return c > 0 && is_valid_reg_name(&value[0..c]);
            }
        },
        None => {},
    }
    is_valid_reg_name(value)
}

/// Whether `value` is a valid authority-form for a plain CONNECT.
pub fn is_valid_connect_authority(value: &[u8]) -> (r: bool)
    ensures
        r == connect_authority_ok(value@),
{
    if value.len() == 0 {
        return false;
    }
    if value[0] == 0x5b {
        let e = match first_index(value, 0x5d) {
            None => {
                return false;
            },
            Some(e) => e,
        };
        proof {
            lemma_first_index_bounds(value@, 0x5d);
        }
        if e + 1 >= value.len() || value[e + 1] != 0x3a {
            return false;
        }
        if e == 0 || !is_valid_ip_literal_content(&value[1..e]) {
            return false;
        }
        return e + 2 < value.len() && all_digits(value, e + 2, value.len());
    }
    let c = match last_index(value, 0x3a) {
        None => {
            return false;
        },
        Some(c) => c,
    };
    proof {
        lemma_last_index_bounds(value@, 0x3a);
    }
    c > 0 && c + 1 < value.len() && is_valid_reg_name(&value[0..c]) && all_digits(
        value,
        c + 1,
        value.len(),
    )
}

/// The first index of `b`, when there is one, holds `b` and is in range.
pub proof fn lemma_first_index_bounds(s: Seq<u8>, b: u8)
    ensures
        first_index_of(s, b) matches Some(k) ==> 0 <= k < s.len() && s[k] == b,
    decreases s.len(),
{
    if s.len() > 0 {
        lemma_first_index_bounds(s.drop_last(), b);
    }
}

/// The last index of `b`, when there is one, holds `b` and is in range.
pub proof fn lemma_last_index_bounds(s: Seq<u8>, b: u8)
    ensures
        last_index_of(s, b) matches Some(k) ==> 0 <= k < s.len() && s[k] == b,
    decreases s.len(),
{
    if s.len() > 0 {
        lemma_last_index_bounds(s.drop_last(), b);
    }
}

// ---------------------------------------------------------------------------
// Header lists
// ---------------------------------------------------------------------------

/// The error every malformed message is reported with.
pub open spec fn message_error() -> Error {
    Error::StreamError(ErrorCode::MessageError)
}

/// The value of the last of the first `n` fields named `name`.
pub open spec fn value_of(hs: Seq<HeaderView>, n: int, name: Seq<u8>) -> Option<Seq<u8>>
    decreases n,
{
    if n <= 0 {
        None
    } else if hs[n - 1].name == name {
        Some(hs[n - 1].value)
    } else {
        value_of(hs, n - 1, name)
    }
}

/// A borrowed byte string, by its view.
pub open spec fn opt_view(o: Option<&[u8]>) -> Option<Seq<u8>> {
    match o {
        Some(s) => Some(s@),
        None => None,
    }
}

/// A request pseudo-header name (RFC 9114 Section 4.3.1, RFC 9220).
pub open spec fn is_request_pseudo_name(n: Seq<u8>) -> bool {
    n == name_method() || n == name_scheme() || n == name_path() || n == name_authority() || n
        == name_protocol()
}

/// A regular field of a request: valid name and value, not
/// connection-specific, and `te` only as `trailers` (RFC 9114 Section 4.2).
pub open spec fn request_field_ok(h: HeaderView) -> bool {
    field_name_ok(h.name) && !is_connection_specific_spec(h.name) && (h.name == word_te()
        ==> h.value == word_trailers()) && field_value_ok(h.value)
}

/// No pseudo-header follows a regular field among the first `n` (RFC 9114 Section 4.3).
pub open spec fn pseudo_first(hs: Seq<HeaderView>, n: int) -> bool {
    forall|a: int, b: int|
        #![trigger hs[a], hs[b]]
        0 <= a < b < n && !is_pseudo_name(hs[a].name) ==> !is_pseudo_name(hs[b].name)
}

/// No two of the first `n` fields share a pseudo-header name.
pub open spec fn pseudo_unique(hs: Seq<HeaderView>, n: int) -> bool {
    forall|a: int, b: int|
        #![trigger hs[a], hs[b]]
        0 <= a < b < n && is_pseudo_name(hs[a].name) ==> hs[a].name != hs[b].name
}

/// No two of the first `n` fields are named `name`.
pub open spec fn name_unique(hs: Seq<HeaderView>, n: int, name: Seq<u8>) -> bool {
    forall|a: int, b: int|
        #![trigger hs[a], hs[b]]
        0 <= a < b < n && hs[a].name == name ==> hs[b].name != name
}

/// The rules each of the first `n` fields of a request meets on its own or
/// against the fields before it.
pub open spec fn request_fields_ok(hs: Seq<HeaderView>, n: int) -> bool {
    &&& pseudo_first(hs, n)
    &&& pseudo_unique(hs, n)
    &&& forall|a: int|
        0 <= a < n && is_pseudo_name(hs[a].name) ==> is_request_pseudo_name(#[trigger] hs[a].name)
    &&& forall|a: int| 0 <= a < n && !is_pseudo_name(hs[a].name) ==> request_field_ok(#[trigger] hs[a])
    &&& name_unique(hs, n, word_host())
}

/// The rules on a request's pseudo-headers and Host taken together
/// (RFC 9114 Sections 4.3.1 and 4.4, RFC 8441 Section 4, RFC 9220).
pub open spec fn request_pseudo_ok(
    m: Option<Seq<u8>>,
    s: Option<Seq<u8>>,
    p: Option<Seq<u8>>,
    a: Option<Seq<u8>>,
    pr: Option<Seq<u8>>,
    h: Option<Seq<u8>>,
) -> bool {
    match m {
        None => false,
        Some(mv) => {
            &&& method_ok(mv)
            &&& if mv == word_connect() && pr is Some {
                s is Some && p is Some && upgrade_token_ok(pr->0) && scheme_ok(s->0) && p->0.len()
                    > 0 && (is_http_scheme(s) ==> (a is Some || h is Some))
            } else if mv == word_connect() {
                s is None && p is None && a is Some && connect_authority_ok(a->0)
            } else {
                pr is None && s is Some && p is Some && scheme_ok(s->0) && p->0.len() > 0 && (
                is_http_scheme(s) ==> http_path_ok(p->0, mv) && (a is Some || h is Some))
            }
            &&& (a is Some && h is Some ==> a == h)
            &&& (a is None && h is Some ==> authority_ok(h->0))
            &&& (is_http_scheme(s) && a is Some ==> !a->0.contains(0x40))
            &&& ((mv != word_connect() || pr is Some) && a is Some ==> authority_ok(a->0))
        },
    }
}

/// A well-formed request header section.
pub open spec fn request_headers_valid(hs: Seq<HeaderView>) -> bool {
    let n = hs.len() as int;
    request_fields_ok(hs, n) && request_pseudo_ok(
        value_of(hs, n, name_method()),
        value_of(hs, n, name_scheme()),
        value_of(hs, n, name_path()),
        value_of(hs, n, name_authority()),
        value_of(hs, n, name_protocol()),
        value_of(hs, n, word_host()),
    )
}

/// The value of the last field named `name`, when there is one, belongs to
/// such a field; when there is none, no field has that name.
pub proof fn lemma_value_of(hs: Seq<HeaderView>, n: int, name: Seq<u8>)
    requires
        0 <= n <= hs.len(),
    ensures
        value_of(hs, n, name) matches Some(v) ==> exists|k: int|
            0 <= k < n && #[trigger] hs[k].name == name && hs[k].value == v,
        value_of(hs, n, name) is None ==> forall|k: int| 0 <= k < n ==> #[trigger] hs[k].name != name,
    decreases n,
{
    if n > 0 {
        lemma_value_of(hs, n - 1, name);
    }
}

/// Whether `b` occurs in `s`.
pub fn contains_byte(s: &[u8], b: u8) -> (r: bool)
    ensures
        r == s@.contains(b),
{
    let mut i: usize = 0;
    while i < s.len()
        invariant
            i <= s@.len(),
            forall|k: int| 0 <= k < i ==> s@[k] != b,
        decreases s.len() - i,
    {
        if s[i] == b {
            return true;
        }
        i = i + 1;
    }
    false
}

fn same_bytes(a: Option<&[u8]>, b: Option<&[u8]>) -> (r: bool)
    ensures
        r == (opt_view(a) == opt_view(b)),
{
    match (a, b) {
        (Some(x), Some(y)) => bytes_eq(x, y),
        (None, None) => true,
        _ => false,
    }
}

/// Validates a request header section (RFC 9114 Sections 4.1.2, 4.3.1, 4.4).
pub fn validate_request_headers(headers: &[Header]) -> (r: Result<(), Error>)
    ensures
        r is Ok <==> request_headers_valid(views(headers@)),
        r is Err ==> r == Err::<(), Error>(message_error()),
{
    let ghost hs = views(headers@);
    let mut method: Option<&[u8]> = None;
    let mut scheme: Option<&[u8]> = None;
    let mut path: Option<&[u8]> = None;
    let mut authority: Option<&[u8]> = None;
    let mut protocol: Option<&[u8]> = None;
    let mut host: Option<&[u8]> = None;
    let mut pseudo_done = false;
    let mut i: usize = 0;
    while i < headers.len()
        invariant
            i <= headers@.len(),
            hs == views(headers@),
            hs.len() == headers@.len(),
            request_fields_ok(hs, i as int),
            pseudo_done == exists|k: int| 0 <= k < i && !is_pseudo_name(#[trigger] hs[k].name),
            opt_view(method) == value_of(hs, i as int, name_method()),
            opt_view(scheme) == value_of(hs, i as int, name_scheme()),
            opt_view(path) == value_of(hs, i as int, name_path()),
            opt_view(authority) == value_of(hs, i as int, name_authority()),
            opt_view(protocol) == value_of(hs, i as int, name_protocol()),
            opt_view(host) == value_of(hs, i as int, word_host()),
        decreases headers.len() - i,
    {
        let header = &headers[i];
        let name = header.name();
        let value = header.value();
        let ghost ii = i as int;
        assert(hs[ii] == header@);
        proof {
            lemma_value_of(hs, ii, name_method());
            lemma_value_of(hs, ii, name_scheme());
            lemma_value_of(hs, ii, name_path());
            lemma_value_of(hs, ii, name_authority());
            lemma_value_of(hs, ii, name_protocol());
            lemma_value_of(hs, ii, word_host());
        }
        if name.len() > 0 && name[0] == 0x3a {
            if pseudo_done {
                let ghost k = choose|k: int| 0 <= k < i && !is_pseudo_name(#[trigger] hs[k].name);
                assert(!pseudo_first(hs, hs.len() as int)) by {
                    assert(hs[k] == hs[k] && hs[ii] == hs[ii]);
                }
                return Err(Error::StreamError(ErrorCode::MessageError));
            }
            if bytes_eq(name, lit_method().as_slice()) {
                if method.is_some() {
                    let ghost k = choose|k: int| 0 <= k < ii && #[trigger] hs[k].name == name_method();
                    assert(!pseudo_unique(hs, hs.len() as int)) by {
                        assert(hs[k] == hs[k] && hs[ii] == hs[ii]);
                    }
                    return Err(Error::StreamError(ErrorCode::MessageError));
                }
                method = Some(value);
            } else if bytes_eq(name, lit_scheme().as_slice()) {
                if scheme.is_some() {
                    let ghost k = choose|k: int| 0 <= k < ii && #[trigger] hs[k].name == name_scheme();
                    assert(!pseudo_unique(hs, hs.len() as int)) by {
                        assert(hs[k] == hs[k] && hs[ii] == hs[ii]);
                    }
                    return Err(Error::StreamError(ErrorCode::MessageError));
                }
                scheme = Some(value);
            } else if bytes_eq(name, lit_path().as_slice()) {
                if path.is_some() {
                    let ghost k = choose|k: int| 0 <= k < ii && #[trigger] hs[k].name == name_path();
                    assert(!pseudo_unique(hs, hs.len() as int)) by {
                        assert(hs[k] == hs[k] && hs[ii] == hs[ii]);
                    }
                    return Err(Error::StreamError(ErrorCode::MessageError));
                }
                path = Some(value);
            } else if bytes_eq(name, lit_authority().as_slice()) {
                if authority.is_some() {
                    let ghost k = choose|k: int|
                        0 <= k < ii && #[trigger] hs[k].name == name_authority();
                    assert(!pseudo_unique(hs, hs.len() as int)) by {
                        assert(hs[k] == hs[k] && hs[ii] == hs[ii]);
                    }
                    return Err(Error::StreamError(ErrorCode::MessageError));
                }
                authority = Some(value);
            } else if bytes_eq(name, lit_protocol().as_slice()) {
                if protocol.is_some() {
                    let ghost k = choose|k: int|
                        0 <= k < ii && #[trigger] hs[k].name == name_protocol();
                    assert(!pseudo_unique(hs, hs.len() as int)) by {
                        assert(hs[k] == hs[k] && hs[ii] == hs[ii]);
                    }
                    return Err(Error::StreamError(ErrorCode::MessageError));
                }
                protocol = Some(value);
            } else {
                assert(!is_request_pseudo_name(hs[ii].name));
                return Err(Error::StreamError(ErrorCode::MessageError));
            }
        } else {
            pseudo_done = true;
            if !is_valid_field_name(name) || is_connection_specific(name) {
                assert(!request_field_ok(hs[ii]));
                return Err(Error::StreamError(ErrorCode::MessageError));
            }
            if bytes_eq(name, lit_te().as_slice()) && !bytes_eq(value, lit_trailers().as_slice()) {
                assert(!request_field_ok(hs[ii]));
                return Err(Error::StreamError(ErrorCode::MessageError));
            }
            if !is_valid_field_value(value) {
                assert(!request_field_ok(hs[ii]));
                return Err(Error::StreamError(ErrorCode::MessageError));
            }
            if bytes_eq(name, lit_host().as_slice()) {
                if host.is_some() {
                    let ghost k = choose|k: int| 0 <= k < ii && #[trigger] hs[k].name == word_host();
                    assert(!name_unique(hs, hs.len() as int, word_host())) by {
                        assert(hs[k] == hs[k] && hs[ii] == hs[ii]);
                    }
                    return Err(Error::StreamError(ErrorCode::MessageError));
                }
                host = Some(value);
            }
        }
        i = i + 1;
    }
    let ghost n = hs.len() as int;
    assert(request_fields_ok(hs, n));
    let m = match method {
        None => {
            return Err(Error::StreamError(ErrorCode::MessageError));
        },
        Some(m) => m,
    };
    if !is_valid_method(m) {
        return Err(Error::StreamError(ErrorCode::MessageError));
    }
    let is_connect = bytes_eq(m, lit_connect().as_slice());
    let scheme_http = match scheme {
        Some(s) => bytes_eq(s, lit_http().as_slice()) || bytes_eq(s, lit_https().as_slice()),
        None => false,
    };
    assert(scheme_http == is_http_scheme(opt_view(scheme)));
    if is_connect && protocol.is_some() {
        let (s, p) = match (scheme, path) {
            (Some(s), Some(p)) => (s, p),
            _ => {
                return Err(Error::StreamError(ErrorCode::MessageError));
            },
        };
        let pr = match protocol {
            Some(pr) => pr,
            None => {
                return Err(Error::StreamError(ErrorCode::MessageError));
            },
        };
        if !is_valid_protocol(pr) || !is_valid_scheme(s) || p.len() == 0 {
            return Err(Error::StreamError(ErrorCode::MessageError));
        }
        if scheme_http && authority.is_none() && host.is_none() {
            return Err(Error::StreamError(ErrorCode::MessageError));
        }
    } else if is_connect {
        if scheme.is_some() || path.is_some() {
            return Err(Error::StreamError(ErrorCode::MessageError));
        }
        match authority {
            None => {
                return Err(Error::StreamError(ErrorCode::MessageError));
            },
            Some(a) => {
                if a.len() == 0 || !is_valid_connect_authority(a) {
                    return Err(Error::StreamError(ErrorCode::MessageError));
                }
            },
        }
    } else {
        if protocol.is_some() {
            return Err(Error::StreamError(ErrorCode::MessageError));
        }
        let (s, p) = match (scheme, path) {
            (Some(s), Some(p)) => (s, p),
            _ => {
                return Err(Error::StreamError(ErrorCode::MessageError));
            },
        };
        if !is_valid_scheme(s) || p.len() == 0 {
            return Err(Error::StreamError(ErrorCode::MessageError));
        }
        if scheme_http && !is_valid_http_path(p, m) {
            return Err(Error::StreamError(ErrorCode::MessageError));
        }
        if scheme_http && authority.is_none() && host.is_none() {
            return Err(Error::StreamError(ErrorCode::MessageError));
        }
    }
    if authority.is_some() && host.is_some() && !same_bytes(authority, host) {
        return Err(Error::StreamError(ErrorCode::MessageError));
    }
    if let Some(a) = authority {
        if a.len() == 0 && !is_connect {
            return Err(Error::StreamError(ErrorCode::MessageError));
        }
    }
    if let Some(h) = host {
        if h.len() == 0 {
            return Err(Error::StreamError(ErrorCode::MessageError));
        }
    }
    if authority.is_none() {
        if let Some(h) = host {
            if !is_valid_authority(h) {
                return Err(Error::StreamError(ErrorCode::MessageError));
            }
        }
    }
    if scheme_http {
        if let Some(a) = authority {
            if contains_byte(a, 0x40) {
                return Err(Error::StreamError(ErrorCode::MessageError));
            }
        }
    }
    if !is_connect || protocol.is_some() {
        if let Some(a) = authority {
            if !is_valid_authority(a) {
                return Err(Error::StreamError(ErrorCode::MessageError));
            }
        }
    }
    Ok(())
}

/// A regular field of a response or trailer section: valid name and value,
/// neither connection-specific nor `te` (RFC 9114 Section 4.2).
pub open spec fn non_request_field_ok(h: HeaderView) -> bool {
    field_name_ok(h.name) && !is_connection_specific_spec(h.name) && h.name != word_te()
        && field_value_ok(h.value)
}

/// A `:status` value: three digits, not 101 (RFC 9110 Section 15, RFC 9114 Section 4.5).
pub open spec fn status_value_ok(v: Seq<u8>) -> bool {
    v.len() == 3 && digits_in(v, 0, 3) && v != word_status_101()
}

/// The rules each of the first `n` fields of a response meets.
pub open spec fn response_fields_ok(hs: Seq<HeaderView>, n: int) -> bool {
    &&& pseudo_first(hs, n)
    &&& pseudo_unique(hs, n)
    &&& forall|a: int|
        0 <= a < n && is_pseudo_name(hs[a].name) ==> (#[trigger] hs[a]).name == name_status()
            && status_value_ok(hs[a].value)
    &&& forall|a: int|
        0 <= a < n && !is_pseudo_name(hs[a].name) ==> non_request_field_ok(#[trigger] hs[a])
}

/// A well-formed response header section (RFC 9114 Section 4.3.2).
pub open spec fn response_headers_valid(hs: Seq<HeaderView>) -> bool {
    response_fields_ok(hs, hs.len() as int) && value_of(hs, hs.len() as int, name_status()) is Some
}

/// A well-formed trailer section: no pseudo-headers (RFC 9114 Section 4.3).
pub open spec fn trailer_headers_valid(hs: Seq<HeaderView>) -> bool {
    forall|a: int|
        0 <= a < hs.len() ==> !is_pseudo_name((#[trigger] hs[a]).name) && non_request_field_ok(
            hs[a],
        )
}

/// Validates a response header section (RFC 9114 Sections 4.1.2, 4.3.2).
pub fn validate_response_headers(headers: &[Header]) -> (r: Result<(), Error>)
    ensures
        r is Ok <==> response_headers_valid(views(headers@)),
        r is Err ==> r == Err::<(), Error>(message_error()),
{
    let ghost hs = views(headers@);
    let mut status: Option<&[u8]> = None;
    let mut pseudo_done = false;
    let mut i: usize = 0;
    while i < headers.len()
        invariant
            i <= headers@.len(),
            hs == views(headers@),
            hs.len() == headers@.len(),
            response_fields_ok(hs, i as int),
            pseudo_done == exists|k: int| 0 <= k < i && !is_pseudo_name(#[trigger] hs[k].name),
            opt_view(status) == value_of(hs, i as int, name_status()),
        decreases headers.len() - i,
    {
        let header = &headers[i];
        let name = header.name();
        let value = header.value();
        let ghost ii = i as int;
        assert(hs[ii] == header@);
        proof {
            lemma_value_of(hs, ii, name_status());
        }
        if name.len() > 0 && name[0] == 0x3a {
            if pseudo_done {
                let ghost k = choose|k: int| 0 <= k < i && !is_pseudo_name(#[trigger] hs[k].name);
                assert(!pseudo_first(hs, hs.len() as int)) by {
                    assert(hs[k] == hs[k] && hs[ii] == hs[ii]);
                }
                return Err(Error::StreamError(ErrorCode::MessageError));
            }
            if !bytes_eq(name, lit_status().as_slice()) {
                return Err(Error::StreamError(ErrorCode::MessageError));
            }
            if status.is_some() {
                let ghost k = choose|k: int| 0 <= k < ii && #[trigger] hs[k].name == name_status();
                assert(!pseudo_unique(hs, hs.len() as int)) by {
                    assert(hs[k] == hs[k] && hs[ii] == hs[ii]);
                }
                return Err(Error::StreamError(ErrorCode::MessageError));
            }
            if value.len() != 3 || !all_digits(value, 0, 3) || bytes_eq(
                value,
                lit_status_101().as_slice(),
            ) {
                return Err(Error::StreamError(ErrorCode::MessageError));
            }
            status = Some(value);
        } else {
            pseudo_done = true;
            if !is_valid_field_name(name) || is_connection_specific(name) || bytes_eq(
                name,
                lit_te().as_slice(),
            ) || !is_valid_field_value(value) {
                assert(!non_request_field_ok(hs[ii]));
                return Err(Error::StreamError(ErrorCode::MessageError));
            }
        }
        i = i + 1;
    }
    if status.is_none() {
        return Err(Error::StreamError(ErrorCode::MessageError));
    }
    Ok(())
}

/// Validates a received header section by role: a server receives
/// requests, a client responses.
pub fn validate_headers(headers: &[Header], role: Role) -> (r: Result<(), Error>)
    ensures
        role == Role::Server ==> (r is Ok <==> request_headers_valid(views(headers@))),
        role == Role::Client ==> (r is Ok <==> response_headers_valid(views(headers@))),
        r is Err ==> r == Err::<(), Error>(message_error()),
{
    match role {
        Role::Server => validate_request_headers(headers),
        Role::Client => validate_response_headers(headers),
    }
}

/// Validates a trailer section (RFC 9114 Sections 4.1.2, 4.3).
pub fn validate_trailer_headers(headers: &[Header]) -> (r: Result<(), Error>)
    ensures
        r is Ok <==> trailer_headers_valid(views(headers@)),
        r is Err ==> r == Err::<(), Error>(message_error()),
{
    let ghost hs = views(headers@);
    let mut i: usize = 0;
    while i < headers.len()
        invariant
            i <= headers@.len(),
            hs == views(headers@),
            hs.len() == headers@.len(),
            forall|a: int|
                0 <= a < i ==> !is_pseudo_name((#[trigger] hs[a]).name) && non_request_field_ok(
                    hs[a],
                ),
        decreases headers.len() - i,
    {
        let header = &headers[i];
        let name = header.name();
        let value = header.value();
        assert(hs[i as int] == header@);
        if name.len() > 0 && name[0] == 0x3a {
            return Err(Error::StreamError(ErrorCode::MessageError));
        }
        if !is_valid_field_name(name) || is_connection_specific(name) || bytes_eq(
            name,
            lit_te().as_slice(),
        ) || !is_valid_field_value(value) {
            assert(!non_request_field_ok(hs[i as int]));
            return Err(Error::StreamError(ErrorCode::MessageError));
        }
        i = i + 1;
    }
    Ok(())
}

// ---------------------------------------------------------------------------
// content-length
// ---------------------------------------------------------------------------

/// The number written in decimal digits `d`.
pub open spec fn decimal_value(d: Seq<u8>) -> nat
    decreases d.len(),
{
    if d.len() == 0 {
        0
    } else {
        decimal_value(d.drop_last()) * 10 + (d.last() - 0x30) as nat
    }
}

/// The unsigned 64-bit integer that `s` spells, as Rust's `u64` parsing
/// reads it: an optional `+`, then one or more decimal digits.
pub open spec fn parse_u64_spec(s: Seq<u8>) -> Option<u64> {
    let d = if s.len() > 0 && s[0] == 0x2b {
        s.skip(1)
    } else {
        s
    };
    if d.len() > 0 && digits_in(d, 0, d.len() as int) && decimal_value(d) <= u64::MAX {
        Some(decimal_value(d) as u64)
    } else {
        None
    }
}

/// Parses an unsigned 64-bit decimal integer.
pub fn parse_u64(s: &[u8]) -> (r: Option<u64>)
    ensures
        r == parse_u64_spec(s@),
{
    let start: usize = if s.len() > 0 && s[0] == 0x2b {
        1
    } else {
        0
    };
    let ghost d = if s@.len() > 0 && s@[0] == 0x2b {
        s@.skip(1)
    } else {
        s@
    };
    assert(d =~= s@.skip(start as int));
    if start >= s.len() {
        return None;
    }
    let mut value: u64 = 0;
    let mut i: usize = start;
    while i < s.len()
        invariant
            start <= i <= s@.len(),
            d == s@.skip(start as int),
            d == (if s@.len() > 0 && s@[0] == 0x2b {
                s@.skip(1)
            } else {
                s@
            }),
            digits_in(s@, start as int, i as int),
            value == decimal_value(s@.subrange(start as int, i as int)),
        decreases s.len() - i,
    {
        let b = s[i];
        proof {
            assert(s@.subrange(start as int, i + 1).drop_last() =~= s@.subrange(
                start as int,
                i as int,
            ));
        }
        if !(0x30 <= b && b <= 0x39) {
            proof {
                assert(d[i - start] == b);
                assert(!is_ascii_digit_spec(d[i - start]));
                assert(!digits_in(d, 0, d.len() as int));
            }
            return None;
        }
        let digit = (b - 0x30) as u64;
        if value > (u64::MAX - digit) / 10 {
            proof {
                lemma_decimal_mono(s@, start as int, i + 1, s@.len() as int);
                assert(d =~= s@.subrange(start as int, s@.len() as int));
                assert(value * 10 + digit > u64::MAX) by (nonlinear_arith)
                    requires
                        value > (u64::MAX - digit) / 10,
                        digit <= 9,
                ;
            }
            return None;
        }
        value = value * 10 + digit;
        i = i + 1;
    }
    assert(d =~= s@.subrange(start as int, s@.len() as int));
    Some(value)
}

/// The value of a longer run of digits is at least that of its prefix.
proof fn lemma_decimal_mono(s: Seq<u8>, lo: int, mid: int, hi: int)
    requires
        0 <= lo <= mid <= hi <= s.len(),
    ensures
        decimal_value(s.subrange(lo, mid)) <= decimal_value(s.subrange(lo, hi)),
    decreases hi - mid,
{
    if mid < hi {
        lemma_decimal_mono(s, lo, mid, hi - 1);
        assert(s.subrange(lo, hi).drop_last() =~= s.subrange(lo, hi - 1));
    }
}

/// The rule on `content-length` (RFC 9114 Section 4.1.2): at most one, its
/// value a number, and, unless the body check is skipped, equal to the body size.
pub open spec fn content_length_ok(hs: Seq<HeaderView>, received: u64, skip_body_check: bool) -> bool {
    &&& name_unique(hs, hs.len() as int, word_content_length())
    &&& forall|a: int|
        0 <= a < hs.len() && (#[trigger] hs[a]).name == word_content_length() ==> parse_u64_spec(
            hs[a].value,
        ) is Some
    &&& match value_of(hs, hs.len() as int, word_content_length()) {
        Some(v) => skip_body_check || parse_u64_spec(v) == Some(received),
        None => true,
    }
}

/// Checks `content-length` against the size of the body received.
pub fn validate_content_length(headers: &[Header], received_body_size: u64, skip_body_check: bool) -> (r:
    Result<(), Error>)
    ensures
        r is Ok <==> content_length_ok(views(headers@), received_body_size, skip_body_check),
        r is Err ==> r == Err::<(), Error>(message_error()),
{
    let ghost hs = views(headers@);
    let mut content_length: Option<u64> = None;
    let mut i: usize = 0;
    while i < headers.len()
        invariant
            i <= headers@.len(),
            hs == views(headers@),
            hs.len() == headers@.len(),
            name_unique(hs, i as int, word_content_length()),
            forall|a: int|
                0 <= a < i && (#[trigger] hs[a]).name == word_content_length() ==> parse_u64_spec(
                    hs[a].value,
                ) is Some,
            match value_of(hs, i as int, word_content_length()) {
                Some(v) => content_length == parse_u64_spec(v),
                None => content_length is None,
            },
        decreases headers.len() - i,
    {
        let header = &headers[i];
        let ghost ii = i as int;
        assert(hs[ii] == header@);
        proof {
            lemma_value_of(hs, ii, word_content_length());
        }
        if bytes_eq(header.name(), lit_content_length().as_slice()) {
            if content_length.is_some() {
                let ghost k = choose|k: int|
                    0 <= k < ii && #[trigger] hs[k].name == word_content_length();
                assert(!name_unique(hs, hs.len() as int, word_content_length())) by {
                    assert(hs[k] == hs[k] && hs[ii] == hs[ii]);
                }
                return Err(Error::StreamError(ErrorCode::MessageError));
            }
            match parse_u64(header.value()) {
                None => {
                    return Err(Error::StreamError(ErrorCode::MessageError));
                },
                Some(v) => {
                    content_length = Some(v);
                },
            }
        }
        i = i + 1;
    }
    assert(i == hs.len());
    proof {
        lemma_value_of(hs, hs.len() as int, word_content_length());
    }
    assert(content_length_ok(hs, received_body_size, skip_body_check) == (match content_length {
        Some(expected) => skip_body_check || expected == received_body_size,
        None => true,
    }));
    match content_length {
        None => Ok(()),
        Some(expected) => {
            if skip_body_check {
                Ok(())
            } else if expected != received_body_size {
                Err(Error::StreamError(ErrorCode::MessageError))
            } else {
                Ok(())
            }
        },
    }
}

// ---------------------------------------------------------------------------
// Field section size
// ---------------------------------------------------------------------------

/// The size of a field section: each field's name and value lengths plus
/// 32 (RFC 9114 Section 4.2.2).
pub open spec fn field_section_size(hs: Seq<HeaderView>) -> nat
    decreases hs.len(),
{
    if hs.len() == 0 {
        0
    } else {
        field_section_size(hs.drop_last()) + hs.last().name.len() + hs.last().value.len() + 32
    }
}

proof fn lemma_section_size_prefix(hs: Seq<HeaderView>, i: int)
    requires
        0 <= i <= hs.len(),
    ensures
        field_section_size(hs.take(i)) <= field_section_size(hs),
    decreases hs.len() - i,
{
    if i < hs.len() {
        lemma_section_size_prefix(hs, i + 1);
        assert(hs.take(i + 1).drop_last() =~= hs.take(i));
    } else {
        assert(hs.take(i) =~= hs);
    }
}

/// The size of the field section `headers`.
pub fn calculate_field_section_size(headers: &[Header]) -> (r: u64)
    requires
        field_section_size(views(headers@)) <= u64::MAX,
    ensures
        r == field_section_size(views(headers@)),
{
    let ghost hs = views(headers@);
    let mut total: u64 = 0;
    let mut i: usize = 0;
    while i < headers.len()
        invariant
            i <= headers@.len(),
            hs == views(headers@),
            hs.len() == headers@.len(),
            field_section_size(hs) <= u64::MAX,
            total == field_section_size(hs.take(i as int)),
        decreases headers.len() - i,
    {
        let header = &headers[i];
        proof {
            assert(hs[i as int] == header@);
            assert(hs.take(i + 1).drop_last() =~= hs.take(i as int));
            lemma_section_size_prefix(hs, i + 1);
        }
        total = total + header.name().len() as u64 + header.value().len() as u64 + 32;
        i = i + 1;
    }
    assert(hs.take(i as int) =~= hs);
    total
}

/// Checks a field section against the peer's SETTINGS_MAX_FIELD_SECTION_SIZE
/// (RFC 9114 Section 4.2.2), when the peer sent one.
pub fn check_field_section_size(headers: &[Header], peer_max: Option<u64>) -> (r: Result<(), Error>)
    requires
        peer_max is Some ==> field_section_size(views(headers@)) <= u64::MAX,
    ensures
        r is Err <==> (peer_max matches Some(m) && field_section_size(views(headers@)) > m),
        r is Err ==> r == Err::<(), Error>(Error::ConnectionError(ErrorCode::InternalError)),
{
    if let Some(max_size) = peer_max {
        let size = calculate_field_section_size(headers);
        if size > max_size {
            return Err(Error::ConnectionError(ErrorCode::InternalError));
        }
    }
    Ok(())
}

/// With the body check on and exactly one `content-length` field, whose
/// value is the number `n`, the rule holds exactly when the body received
/// is `n` bytes long: a shorter body fails as a longer one does.
pub proof fn lemma_content_length_exact(hs: Seq<HeaderView>, k: int, n: u64, received: u64)
    requires
        0 <= k < hs.len(),
        hs[k].name == word_content_length(),
        parse_u64_spec(hs[k].value) == Some(n),
        forall|j: int| 0 <= j < hs.len() && j != k ==> (#[trigger] hs[j]).name != word_content_length(),
    ensures
        content_length_ok(hs, received, false) <==> received == n,
{
    lemma_value_of(hs, hs.len() as int, word_content_length());
    assert(hs[k].name == word_content_length());
    assert(value_of(hs, hs.len() as int, word_content_length()) == Some(hs[k].value));
}

/// Field names are lowercase (RFC 9114 Section 4.2): a section with a
/// regular field whose name holds an upper-case ASCII letter is refused as
/// a request, a response and a trailer section.
pub proof fn lemma_uppercase_name_refused(hs: Seq<HeaderView>, k: int, j: int)
    requires
        0 <= k < hs.len(),
        !is_pseudo_name(hs[k].name),
        0 <= j < hs[k].name.len(),
        0x41 <= hs[k].name[j] <= 0x5a,
    ensures
        !request_headers_valid(hs),
        !response_headers_valid(hs),
        !trailer_headers_valid(hs),
{
    assert(!is_lowercase_token_byte_spec(hs[k].name[j]));
    assert(!field_name_ok(hs[k].name));
    assert(!request_field_ok(hs[k]));
    assert(!non_request_field_ok(hs[k]));
}

/// Connection-specific fields are malformed in HTTP/3 (RFC 9114 Section
/// 4.2): a section with `connection`, `keep-alive`, `proxy-connection`,
/// `transfer-encoding` or `upgrade` is refused as a request, a response
/// and a trailer section; so is `te` anywhere but in a request, and there
/// with any value but `trailers`.
pub proof fn lemma_connection_specific_refused(hs: Seq<HeaderView>, k: int)
    requires
        0 <= k < hs.len(),
    ensures
        (hs[k].name == word_connection() || hs[k].name == word_keep_alive() || hs[k].name == word_proxy_connection()
            || hs[k].name == word_transfer_encoding() || hs[k].name == word_upgrade()) ==> !request_headers_valid(hs)
            && !response_headers_valid(hs) && !trailer_headers_valid(hs),
        hs[k].name == word_te() ==> !response_headers_valid(hs) && !trailer_headers_valid(hs),
        hs[k].name == word_te() && hs[k].value != word_trailers() ==> !request_headers_valid(hs),
{
    assert(!is_pseudo_name(word_connection()) && !is_pseudo_name(word_keep_alive()) && !is_pseudo_name(
        word_proxy_connection(),
    ) && !is_pseudo_name(word_transfer_encoding()) && !is_pseudo_name(word_upgrade()) && !is_pseudo_name(word_te()));
    if !is_pseudo_name(hs[k].name) {
        assert(request_fields_ok(hs, hs.len() as int) ==> request_field_ok(hs[k]));
        assert(response_fields_ok(hs, hs.len() as int) ==> non_request_field_ok(hs[k]));
    }
}

/// Pseudo-headers come first, each at most once (RFC 9114 Section 4.3): a
/// pseudo-header after a regular field, or a pseudo-header name twice, is
/// refused as a request and as a response; a trailer section takes no
/// pseudo-header at all.
pub proof fn lemma_pseudo_order_refused(hs: Seq<HeaderView>, a: int, b: int)
    requires
        0 <= a < b < hs.len(),
    ensures
        !is_pseudo_name(hs[a].name) && is_pseudo_name(hs[b].name) ==> !request_headers_valid(hs)
            && !response_headers_valid(hs),
        is_pseudo_name(hs[a].name) && hs[a].name == hs[b].name ==> !request_headers_valid(hs)
            && !response_headers_valid(hs),
        is_pseudo_name(hs[a].name) ==> !trailer_headers_valid(hs),
{
    assert(request_fields_ok(hs, hs.len() as int) ==> pseudo_first(hs, hs.len() as int) && pseudo_unique(
        hs,
        hs.len() as int,
    ));
    assert(response_fields_ok(hs, hs.len() as int) ==> pseudo_first(hs, hs.len() as int) && pseudo_unique(
        hs,
        hs.len() as int,
    ));
    assert(hs[a].name == hs[a].name);
    assert(hs[b].name == hs[b].name);
}

/// A request needs `:method` and a response `:status` (RFC 9114 Sections
/// 4.3.1, 4.3.2); a `:status` of 101 is refused (Section 4.5).
pub proof fn lemma_required_pseudo_refused(hs: Seq<HeaderView>)
    ensures
        (forall|k: int| 0 <= k < hs.len() ==> (#[trigger] hs[k]).name != name_method()) ==> !request_headers_valid(hs),
        (forall|k: int| 0 <= k < hs.len() ==> (#[trigger] hs[k]).name != name_status()) ==> !response_headers_valid(hs),
        (exists|k: int| 0 <= k < hs.len() && (#[trigger] hs[k]).name == name_status() && hs[k].value
            == word_status_101()) ==> !response_headers_valid(hs),
{
    lemma_value_of(hs, hs.len() as int, name_method());
    lemma_value_of(hs, hs.len() as int, name_status());
    if exists|k: int| 0 <= k < hs.len() && (#[trigger] hs[k]).name == name_status() && hs[k].value == word_status_101() {
        let k = choose|k: int| 0 <= k < hs.len() && (#[trigger] hs[k]).name == name_status() && hs[k].value
            == word_status_101();
        assert(is_pseudo_name(name_status()));
        assert(response_fields_ok(hs, hs.len() as int) ==> status_value_ok(hs[k].value));
    }
}

} // verus!
