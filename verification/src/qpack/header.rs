//! HTTP/3 header fields (RFC 9114 Section 4.2, RFC 9110 Section 5).
//!
//! A [`Header`] built with [`Header::new`] or [`Header::from_static`] has
//! passed the single-field checks:
//!
//! - field name: not empty, lowercase token characters only (a leading `:`
//!   marks a pseudo-header);
//! - field value: field-vchar, SP or HTAB only, not starting or ending with
//!   SP or HTAB;
//! - pseudo-headers: one of `:method`, `:scheme`, `:authority`, `:path`,
//!   `:status`, `:protocol`, and the values of `:method`, `:scheme`,
//!   `:status` and `:protocol` well-formed on their own.
//!
//! Checks that depend on the whole header list live in `validation`.

use vstd::prelude::*;
use crate::text::{escaped_display, hex2_chars, push_str, push_escaped_display, push_hex2, string_from_chars};

verus! {

// ---------------------------------------------------------------------------
// Byte classes
// ---------------------------------------------------------------------------

/// `tchar` (RFC 9110 Section 5.6.2), upper and lower case.
pub open spec fn is_tchar_spec(b: u8) -> bool {
    b == 0x21 || b == 0x23 || b == 0x24 || b == 0x25 || b == 0x26 || b == 0x27 || b == 0x2a
        || b == 0x2b || b == 0x2d || b == 0x2e || b == 0x5e || b == 0x5f || b == 0x60 || b
        == 0x7c || b == 0x7e || (0x30 <= b <= 0x39) || (0x41 <= b <= 0x5a) || (0x61 <= b
        <= 0x7a)
}

/// An ASCII upper-case letter.
pub open spec fn is_ascii_upper_spec(b: u8) -> bool {
    0x41 <= b <= 0x5a
}

/// A `tchar` other than an upper-case letter: what an HTTP/3 field name may hold.
pub open spec fn is_lowercase_token_byte_spec(b: u8) -> bool {
    is_tchar_spec(b) && !is_ascii_upper_spec(b)
}

/// `field-vchar` (RFC 9110 Section 5.5): VCHAR or obs-text.
pub open spec fn is_field_vchar_spec(b: u8) -> bool {
    (0x21 <= b <= 0x7e) || b >= 0x80
}

/// A byte a field value may hold: field-vchar, SP or HTAB.
pub open spec fn is_field_value_byte_spec(b: u8) -> bool {
    is_field_vchar_spec(b) || b == 0x20 || b == 0x09
}

/// An ASCII letter.
pub open spec fn is_ascii_alpha_spec(b: u8) -> bool {
    (0x41 <= b <= 0x5a) || (0x61 <= b <= 0x7a)
}

/// An ASCII digit.
pub open spec fn is_ascii_digit_spec(b: u8) -> bool {
    0x30 <= b <= 0x39
}

/// A byte after the first of a URI scheme: ALPHA / DIGIT / "+" / "-" / ".".
pub open spec fn is_scheme_byte_spec(b: u8) -> bool {
    is_ascii_alpha_spec(b) || is_ascii_digit_spec(b) || b == 0x2b || b == 0x2d || b == 0x2e
}

/// Every byte of `s` in `lo..hi` is a `tchar`.
pub open spec fn all_tchar_in(s: Seq<u8>, lo: int, hi: int) -> bool {
    forall|i: int| lo <= i < hi ==> #[trigger] is_tchar_spec(s[i])
}

/// Every byte of `s` from `lo` on may stand in a field name.
pub open spec fn name_bytes_ok(s: Seq<u8>, lo: int) -> bool {
    forall|i: int| lo <= i < s.len() ==> #[trigger] is_lowercase_token_byte_spec(s[i])
}

/// Every byte of `s` may stand in a field value.
pub open spec fn value_bytes_ok(s: Seq<u8>) -> bool {
    forall|i: int| 0 <= i < s.len() ==> #[trigger] is_field_value_byte_spec(s[i])
}

/// The first index from `lo` on whose byte may not stand in a field name.
pub open spec fn first_bad_name_byte(s: Seq<u8>, lo: int) -> int {
    choose|i: int|
        lo <= i < s.len() && !is_lowercase_token_byte_spec(s[i]) && (forall|j: int|
            lo <= j < i ==> #[trigger] is_lowercase_token_byte_spec(s[j]))
}

/// The first index whose byte may not stand in a field value.
pub open spec fn first_bad_value_byte(s: Seq<u8>) -> int {
    choose|i: int|
        0 <= i < s.len() && !is_field_value_byte_spec(s[i]) && (forall|j: int|
            0 <= j < i ==> #[trigger] is_field_value_byte_spec(s[j]))
}

/// A bad name byte with only good ones before it is the first bad one.
pub proof fn lemma_first_bad_name_byte(s: Seq<u8>, lo: int, i: int)
    requires
        lo <= i < s.len(),
        !is_lowercase_token_byte_spec(s[i]),
        forall|j: int| lo <= j < i ==> #[trigger] is_lowercase_token_byte_spec(s[j]),
    ensures
        first_bad_name_byte(s, lo) == i,
        !name_bytes_ok(s, lo),
{
    let k = first_bad_name_byte(s, lo);
    assert(lo <= k < s.len() && !is_lowercase_token_byte_spec(s[k]));
    if k < i {
        assert(is_lowercase_token_byte_spec(s[k]));
    }
    if k > i {
        assert(is_lowercase_token_byte_spec(s[i]));
    }
}

/// A bad value byte with only good ones before it is the first bad one.
pub proof fn lemma_first_bad_value_byte(s: Seq<u8>, i: int)
    requires
        0 <= i < s.len(),
        !is_field_value_byte_spec(s[i]),
        forall|j: int| 0 <= j < i ==> #[trigger] is_field_value_byte_spec(s[j]),
    ensures
        first_bad_value_byte(s) == i,
        !value_bytes_ok(s),
{
    let k = first_bad_value_byte(s);
    assert(0 <= k < s.len() && !is_field_value_byte_spec(s[k]));
    if k < i {
        assert(is_field_value_byte_spec(s[k]));
    }
    if k > i {
        assert(is_field_value_byte_spec(s[i]));
    }
}

// ---------------------------------------------------------------------------
// Pseudo-header names
// ---------------------------------------------------------------------------

/// The bytes of `:method`.
pub open spec fn name_method() -> Seq<u8> {
    seq![58u8, 109u8, 101u8, 116u8, 104u8, 111u8, 100u8]
}

/// The bytes of `:scheme`.
pub open spec fn name_scheme() -> Seq<u8> {
    seq![58u8, 115u8, 99u8, 104u8, 101u8, 109u8, 101u8]
}

/// The bytes of `:authority`.
pub open spec fn name_authority() -> Seq<u8> {
    seq![58u8, 97u8, 117u8, 116u8, 104u8, 111u8, 114u8, 105u8, 116u8, 121u8]
}

/// The bytes of `:path`.
pub open spec fn name_path() -> Seq<u8> {
    seq![58u8, 112u8, 97u8, 116u8, 104u8]
}

/// The bytes of `:status`.
pub open spec fn name_status() -> Seq<u8> {
    seq![58u8, 115u8, 116u8, 97u8, 116u8, 117u8, 115u8]
}

/// The bytes of `:protocol`.
pub open spec fn name_protocol() -> Seq<u8> {
    seq![58u8, 112u8, 114u8, 111u8, 116u8, 111u8, 99u8, 111u8, 108u8]
}


/// One of the pseudo-header names this crate knows (RFC 9114 Section 4.3,
/// RFC 8441 Section 4, RFC 9220).
pub open spec fn is_known_pseudo_spec(name: Seq<u8>) -> bool {
    name == name_method() || name == name_scheme() || name == name_authority() || name
        == name_path() || name == name_status() || name == name_protocol()
}

// ---------------------------------------------------------------------------
// The single-field check
// ---------------------------------------------------------------------------

/// The outcome of the single-field check.
#[derive(Debug, Clone, Copy, PartialEq, Eq, Structural)]
pub enum CheckResult {
    /// The field passes.
    Valid,
    /// The name is empty.
    EmptyFieldName,
    /// The name holds an upper-case letter.
    UppercaseFieldName,
    /// The name holds this byte, which is not a token character.
    InvalidFieldNameByte(u8),
    /// The value holds this byte, which is neither field-vchar, SP nor HTAB.
    InvalidFieldValueByte(u8),
    /// The value starts or ends with SP or HTAB.
    FieldValueLeadingOrTrailingWhitespace,
    /// The name starts with `:` but is no known pseudo-header.
    UnknownPseudoHeader,
    /// The pseudo-header's value is malformed.
    InvalidPseudoHeaderValue,
}

/// An HTTP Upgrade Token `protocol-name ["/" protocol-version]`, both parts
/// tokens (RFC 9110 Section 7.8).
pub open spec fn upgrade_token_ok(v: Seq<u8>) -> bool {
    v.len() > 0 && (all_tchar_in(v, 0, v.len() as int) || exists|s: int|
        0 < s < v.len() - 1 && #[trigger] v[s] == 0x2f && all_tchar_in(v, 0, s) && all_tchar_in(
            v,
            s + 1,
            v.len() as int,
        ))
}

/// Whether a pseudo-header's value is well-formed on its own: `:method` a
/// token, `:scheme` a URI scheme, `:status` three digits, `:protocol` an
/// upgrade token; other pseudo-headers are not checked here.
pub open spec fn pseudo_value_ok(name: Seq<u8>, value: Seq<u8>) -> bool {
    if name == name_method() {
        value.len() > 0 && all_tchar_in(value, 0, value.len() as int)
    } else if name == name_scheme() {
        value.len() > 0 && is_ascii_alpha_spec(value[0]) && (forall|i: int|
            1 <= i < value.len() ==> #[trigger] is_scheme_byte_spec(value[i]))
    } else if name == name_status() {
        value.len() == 3 && (forall|i: int| 0 <= i < 3 ==> #[trigger] is_ascii_digit_spec(value[i]))
    } else if name == name_protocol() {
        upgrade_token_ok(value)
    } else {
        true
    }
}

/// The single-field check of a name and value, first failure first.
pub open spec fn header_check(name: Seq<u8>, value: Seq<u8>) -> CheckResult {
    if name.len() == 0 {
        CheckResult::EmptyFieldName
    } else {
        let pseudo = name[0] == 0x3a;
        let start: int = if pseudo {
            1
        } else {
            0
        };
        if !name_bytes_ok(name, start) {
            let i = first_bad_name_byte(name, start);
            if is_ascii_upper_spec(name[i]) {
                CheckResult::UppercaseFieldName
            } else {
                CheckResult::InvalidFieldNameByte(name[i])
            }
        } else if pseudo && !is_known_pseudo_spec(name) {
            CheckResult::UnknownPseudoHeader
        } else if !value_bytes_ok(value) {
            CheckResult::InvalidFieldValueByte(value[first_bad_value_byte(value)])
        } else if value.len() > 0 && (!is_field_vchar_spec(value[0]) || !is_field_vchar_spec(
            value.last(),
        )) {
            CheckResult::FieldValueLeadingOrTrailingWhitespace
        } else if pseudo && !pseudo_value_ok(name, value) {
            CheckResult::InvalidPseudoHeaderValue
        } else {
            CheckResult::Valid
        }
    }
}

// ---------------------------------------------------------------------------
// Executable checks
// ---------------------------------------------------------------------------

/// The bytes of `:method`.
pub fn lit_method() -> (r: Vec<u8>)
    ensures
        r@ == name_method(),
{
    vec![58u8, 109u8, 101u8, 116u8, 104u8, 111u8, 100u8]
}

/// The bytes of `:scheme`.
pub fn lit_scheme() -> (r: Vec<u8>)
    ensures
        r@ == name_scheme(),
{
    vec![58u8, 115u8, 99u8, 104u8, 101u8, 109u8, 101u8]
}

/// The bytes of `:authority`.
pub fn lit_authority() -> (r: Vec<u8>)
    ensures
        r@ == name_authority(),
{
    vec![58u8, 97u8, 117u8, 116u8, 104u8, 111u8, 114u8, 105u8, 116u8, 121u8]
}

/// The bytes of `:path`.
pub fn lit_path() -> (r: Vec<u8>)
    ensures
        r@ == name_path(),
{
    vec![58u8, 112u8, 97u8, 116u8, 104u8]
}

/// The bytes of `:status`.
pub fn lit_status() -> (r: Vec<u8>)
    ensures
        r@ == name_status(),
{
    vec![58u8, 115u8, 116u8, 97u8, 116u8, 117u8, 115u8]
}

/// The bytes of `:protocol`.
pub fn lit_protocol() -> (r: Vec<u8>)
    ensures
        r@ == name_protocol(),
{
    vec![58u8, 112u8, 114u8, 111u8, 116u8, 111u8, 99u8, 111u8, 108u8]
}


/// Whether `b` is a lowercase token character (field names hold only these).
pub fn is_lowercase_token_byte(b: u8) -> (r: bool)
    ensures
        r == is_lowercase_token_byte_spec(b),
{
    b == 0x21 || b == 0x23 || b == 0x24 || b == 0x25 || b == 0x26 || b == 0x27 || b == 0x2a
        || b == 0x2b || b == 0x2d || b == 0x2e || b == 0x5e || b == 0x5f || b == 0x60 || b
        == 0x7c || b == 0x7e || (0x30 <= b && b <= 0x39) || (0x61 <= b && b <= 0x7a)
}

/// Whether `b` is field-vchar (RFC 9110 Section 5.5).
pub fn is_field_vchar(b: u8) -> (r: bool)
    ensures
        r == is_field_vchar_spec(b),
{
    (0x21 <= b && b <= 0x7e) || b >= 0x80
}

/// Whether `b` is a `tchar` (RFC 9110 Section 5.6.2).
pub fn is_tchar(b: u8) -> (r: bool)
    ensures
        r == is_tchar_spec(b),
{
    b == 0x21 || b == 0x23 || b == 0x24 || b == 0x25 || b == 0x26 || b == 0x27 || b == 0x2a
        || b == 0x2b || b == 0x2d || b == 0x2e || b == 0x5e || b == 0x5f || b == 0x60 || b
        == 0x7c || b == 0x7e || (0x30 <= b && b <= 0x39) || (0x41 <= b && b <= 0x5a) || (0x61
        <= b && b <= 0x7a)
}

/// Byte-string equality.
pub fn bytes_eq(a: &[u8], b: &[u8]) -> (r: bool)
    ensures
        r == (a@ == b@),
{
    if a.len() != b.len() {
        return false;
    }
    let mut i: usize = 0;
    while i < a.len()
        invariant
            i <= a.len(),
            a.len() == b.len(),
            forall|j: int| 0 <= j < i ==> a@[j] == b@[j],
        decreases a.len() - i,
    {
        if a[i] != b[i] {
            return false;
        }
        i = i + 1;
    }
    assert(a@ =~= b@);
    true
}

/// Whether `name` is a known pseudo-header name.
pub fn is_known_pseudo_header(name: &[u8]) -> (r: bool)
    ensures
        r == is_known_pseudo_spec(name@),
{
    bytes_eq(lit_method().as_slice(), name) || bytes_eq(lit_scheme().as_slice(), name)
        || bytes_eq(lit_authority().as_slice(), name) || bytes_eq(lit_path().as_slice(), name)
        || bytes_eq(lit_status().as_slice(), name) || bytes_eq(lit_protocol().as_slice(), name)
}

/// Whether every byte of `s` in `lo..hi` is a `tchar`.
pub(crate) fn all_tchar(s: &[u8], lo: usize, hi: usize) -> (r: bool)
    requires
        lo <= hi <= s@.len(),
    ensures
        r == all_tchar_in(s@, lo as int, hi as int),
{
    let mut i = lo;
    while i < hi
        invariant
            lo <= i <= hi,
            hi <= s@.len(),
            all_tchar_in(s@, lo as int, i as int),
        decreases hi - i,
    {
        if !is_tchar(s[i]) {
            return false;
        }
        i = i + 1;
    }
    true
}

/// Checks an HTTP Upgrade Token `protocol-name ["/" protocol-version]`.
pub fn check_upgrade_token(value: &[u8]) -> (r: CheckResult)
    ensures
        r == (if upgrade_token_ok(value@) {
            CheckResult::Valid
        } else {
            CheckResult::InvalidPseudoHeaderValue
        }),
{
    if value.len() == 0 {
        return CheckResult::InvalidPseudoHeaderValue;
    }
    let mut slash: usize = 0;
    while slash < value.len() && value[slash] != 0x2f
        invariant
            slash <= value@.len(),
            forall|j: int| 0 <= j < slash ==> value@[j] != 0x2f,
        decreases value.len() - slash,
    {
        slash = slash + 1;
    }
    if slash == value.len() {
        let ok = all_tchar(value, 0, value.len());
        proof {
            if !ok && upgrade_token_ok(value@) {
                let s = choose|s: int|
                    0 < s < value@.len() - 1 && #[trigger] value@[s] == 0x2f && all_tchar_in(
                        value@,
                        0,
                        s,
                    ) && all_tchar_in(value@, s + 1, value@.len() as int);
                assert(value@[s] != 0x2f);
            }
        }
        return if ok {
            CheckResult::Valid
        } else {
            CheckResult::InvalidPseudoHeaderValue
        };
    }
    assert(!is_tchar_spec(value@[slash as int]));
    assert(!all_tchar_in(value@, 0, value@.len() as int));
    let name_ok = slash > 0 && all_tchar(value, 0, slash);
    let version_ok = slash + 1 < value.len() && all_tchar(value, slash + 1, value.len());
    proof {
        if upgrade_token_ok(value@) {
            let s = choose|s: int|
                0 < s < value@.len() - 1 && #[trigger] value@[s] == 0x2f && all_tchar_in(
                    value@,
                    0,
                    s,
                ) && all_tchar_in(value@, s + 1, value@.len() as int);
            if s > slash {
                assert(is_tchar_spec(value@[slash as int]));
            }
            assert(s == slash);
        }
        if name_ok && version_ok {
            assert(value@[slash as int] == 0x2f);
        }
    }
    if name_ok && version_ok {
        CheckResult::Valid
    } else {
        CheckResult::InvalidPseudoHeaderValue
    }
}

/// Checks a pseudo-header's value on its own.
pub fn check_pseudo_value(name: &[u8], value: &[u8]) -> (r: CheckResult)
    ensures
        r == (if pseudo_value_ok(name@, value@) {
            CheckResult::Valid
        } else {
            CheckResult::InvalidPseudoHeaderValue
        }),
{
    if bytes_eq(name, lit_method().as_slice()) {
        if value.len() == 0 || !all_tchar(value, 0, value.len()) {
            return CheckResult::InvalidPseudoHeaderValue;
        }
        CheckResult::Valid
    } else if bytes_eq(name, lit_scheme().as_slice()) {
        if value.len() == 0 {
            return CheckResult::InvalidPseudoHeaderValue;
        }
        let first = value[0];
        if !((0x41 <= first && first <= 0x5a) || (0x61 <= first && first <= 0x7a)) {
            return CheckResult::InvalidPseudoHeaderValue;
        }
        let mut i: usize = 1;
        while i < value.len()
            invariant
                1 <= i <= value@.len(),
                name@ != name_method(),
                name@ == name_scheme(),
                is_ascii_alpha_spec(value@[0]),
                forall|k: int| 1 <= k < i ==> #[trigger] is_scheme_byte_spec(value@[k]),
            decreases value.len() - i,
        {
            let b = value[i];
            if !((0x41 <= b && b <= 0x5a) || (0x61 <= b && b <= 0x7a) || (0x30 <= b && b <= 0x39)
                || b == 0x2b || b == 0x2d || b == 0x2e) {
                assert(!is_scheme_byte_spec(value@[i as int]));
                return CheckResult::InvalidPseudoHeaderValue;
            }
            i = i + 1;
        }
        CheckResult::Valid
    } else if bytes_eq(name, lit_status().as_slice()) {
        if value.len() != 3 {
            return CheckResult::InvalidPseudoHeaderValue;
        }
        let mut i: usize = 0;
        while i < 3
            invariant
                i <= 3,
                value@.len() == 3,
                name@ != name_method(),
                name@ != name_scheme(),
                name@ == name_status(),
                forall|k: int| 0 <= k < i ==> #[trigger] is_ascii_digit_spec(value@[k]),
            decreases 3 - i,
        {
            if !(0x30 <= value[i] && value[i] <= 0x39) {
                assert(!is_ascii_digit_spec(value@[i as int]));
                return CheckResult::InvalidPseudoHeaderValue;
            }
            i = i + 1;
        }
        CheckResult::Valid
    } else if bytes_eq(name, lit_protocol().as_slice()) {
        check_upgrade_token(value)
    } else {
        CheckResult::Valid
    }
}

/// The single-field check of `name` and `value`.
pub fn check_header(name: &[u8], value: &[u8]) -> (r: CheckResult)
    ensures
        r == header_check(name@, value@),
{
    if name.len() == 0 {
        return CheckResult::EmptyFieldName;
    }
    let is_pseudo = name[0] == 0x3a;
    let name_start: usize = if is_pseudo {
        1
    } else {
        0
    };
    let mut i = name_start;
    while i < name.len()
        invariant
            name_start <= i <= name@.len(),
            name@.len() > 0,
            is_pseudo == (name@[0] == 0x3a),
            name_start == (if is_pseudo {
                1usize
            } else {
                0usize
            }),
            forall|k: int| name_start <= k < i ==> #[trigger] is_lowercase_token_byte_spec(name@[k]),
        decreases name.len() - i,
    {
        let b = name[i];
        if 0x41 <= b && b <= 0x5a {
            proof {
                lemma_first_bad_name_byte(name@, name_start as int, i as int);
            }
            return CheckResult::UppercaseFieldName;
        }
        if !is_lowercase_token_byte(b) {
            proof {
                lemma_first_bad_name_byte(name@, name_start as int, i as int);
            }
            return CheckResult::InvalidFieldNameByte(b);
        }
        i = i + 1;
    }
    assert(name_bytes_ok(name@, name_start as int));
    if is_pseudo && !is_known_pseudo_header(name) {
        return CheckResult::UnknownPseudoHeader;
    }
    let mut j: usize = 0;
    while j < value.len()
        invariant
            j <= value@.len(),
            name@.len() > 0,
            is_pseudo == (name@[0] == 0x3a),
            name_bytes_ok(name@, if is_pseudo {
                1int
            } else {
                0int
            }),
            is_pseudo ==> is_known_pseudo_spec(name@),
            forall|k: int| 0 <= k < j ==> #[trigger] is_field_value_byte_spec(value@[k]),
        decreases value.len() - j,
    {
        let b = value[j];
        if !(is_field_vchar(b) || b == 0x20 || b == 0x09) {
            proof {
                lemma_first_bad_value_byte(value@, j as int);
            }
            return CheckResult::InvalidFieldValueByte(b);
        }
        j = j + 1;
    }
    assert(value_bytes_ok(value@));
    if value.len() > 0 {
        let first = value[0];
        let last = value[value.len() - 1];
        if !is_field_vchar(first) || !is_field_vchar(last) {
            return CheckResult::FieldValueLeadingOrTrailingWhitespace;
        }
    }
    if is_pseudo {
        let c = check_pseudo_value(name, value);
        if c != CheckResult::Valid {
            return c;
        }
    }
    CheckResult::Valid
}

// ---------------------------------------------------------------------------
// Header
// ---------------------------------------------------------------------------

/// Why a name and value do not make a header field.
#[derive(Debug, Clone, PartialEq, Eq)]
pub enum HeaderError {
    /// The name is empty (RFC 9110 Section 5.1).
    EmptyFieldName,
    /// The name holds an upper-case letter (RFC 9114 Section 4.2).
    UppercaseFieldName { name: Vec<u8> },
    /// The name holds a byte that is not a token character.
    InvalidFieldNameByte { name: Vec<u8>, byte: u8 },
    /// The value holds NUL, CR, LF or another byte that is not allowed.
    InvalidFieldValueByte { name: Vec<u8>, byte: u8 },
    /// The value starts or ends with SP or HTAB.
    FieldValueLeadingOrTrailingWhitespace { name: Vec<u8> },
    /// The name starts with `:` but is no known pseudo-header.
    UnknownPseudoHeader { name: Vec<u8> },
    /// The pseudo-header's value is malformed.
    InvalidPseudoHeaderValue { name: Vec<u8>, value: Vec<u8> },
}

/// The message of a header error; names and values are shown escaped and
/// cut to 64 bytes.
pub open spec fn header_error_message(e: HeaderError) -> Seq<char> {
    match e {
        HeaderError::EmptyFieldName => "field name must not be empty"@,
        HeaderError::UppercaseFieldName { name } => "field name must be lowercase: "@ + escaped_display(name@),
        HeaderError::InvalidFieldNameByte { name, byte } => "field name contains invalid byte 0x"@ + hex2_chars(byte)
            + ": "@ + escaped_display(name@),
        HeaderError::InvalidFieldValueByte { name, byte } => "field value contains invalid byte 0x"@ + hex2_chars(byte)
            + " (name: "@ + escaped_display(name@) + ")"@,
        HeaderError::FieldValueLeadingOrTrailingWhitespace { name } => "field value must not start or end with whitespace (name: "@
            + escaped_display(name@) + ")"@,
        HeaderError::UnknownPseudoHeader { name } => "unknown pseudo header: "@ + escaped_display(name@),
        HeaderError::InvalidPseudoHeaderValue { name, value } => "invalid pseudo header value for "@ + escaped_display(name@)
            + ": "@ + escaped_display(value@),
    }
}

impl HeaderError {
    /// The message of this error.
    pub fn to_string(&self) -> (r: String)
        ensures
            r@ == header_error_message(*self),
    {
        let mut v: Vec<char> = Vec::new();
        match self {
            HeaderError::EmptyFieldName => {
                push_str(&mut v, "field name must not be empty");
            },
            HeaderError::UppercaseFieldName { name } => {
                push_str(&mut v, "field name must be lowercase: ");
                push_escaped_display(&mut v, name.as_slice());
            },
            HeaderError::InvalidFieldNameByte { name, byte } => {
                push_str(&mut v, "field name contains invalid byte 0x");
                push_hex2(&mut v, *byte);
                push_str(&mut v, ": ");
                push_escaped_display(&mut v, name.as_slice());
            },
            HeaderError::InvalidFieldValueByte { name, byte } => {
                push_str(&mut v, "field value contains invalid byte 0x");
                push_hex2(&mut v, *byte);
                push_str(&mut v, " (name: ");
                push_escaped_display(&mut v, name.as_slice());
                push_str(&mut v, ")");
            },
            HeaderError::FieldValueLeadingOrTrailingWhitespace { name } => {
                push_str(&mut v, "field value must not start or end with whitespace (name: ");
                push_escaped_display(&mut v, name.as_slice());
                push_str(&mut v, ")");
            },
            HeaderError::UnknownPseudoHeader { name } => {
                push_str(&mut v, "unknown pseudo header: ");
                push_escaped_display(&mut v, name.as_slice());
            },
            HeaderError::InvalidPseudoHeaderValue { name, value } => {
                push_str(&mut v, "invalid pseudo header value for ");
                push_escaped_display(&mut v, name.as_slice());
                push_str(&mut v, ": ");
                push_escaped_display(&mut v, value.as_slice());
            },
        }
        assert(v@ =~= header_error_message(*self));
        string_from_chars(v.as_slice())
    }
}

/// The error that reports check outcome `c` for `name` and `value`.
pub open spec fn error_reports(e: HeaderError, c: CheckResult, name: Seq<u8>, value: Seq<u8>) -> bool {
    match c {
        CheckResult::Valid => false,
        CheckResult::EmptyFieldName => e matches HeaderError::EmptyFieldName,
        CheckResult::UppercaseFieldName => e matches HeaderError::UppercaseFieldName { name: n }
            && n@ == name,
        CheckResult::InvalidFieldNameByte(b) => e matches HeaderError::InvalidFieldNameByte {
            name: n,
            byte,
        } && n@ == name && byte == b,
        CheckResult::InvalidFieldValueByte(b) => e matches HeaderError::InvalidFieldValueByte {
            name: n,
            byte,
        } && n@ == name && byte == b,
        CheckResult::FieldValueLeadingOrTrailingWhitespace => e
            matches HeaderError::FieldValueLeadingOrTrailingWhitespace { name: n } && n@ == name,
        CheckResult::UnknownPseudoHeader => e matches HeaderError::UnknownPseudoHeader { name: n }
            && n@ == name,
        CheckResult::InvalidPseudoHeaderValue => e
            matches HeaderError::InvalidPseudoHeaderValue { name: n, value: v } && n@ == name && v@
            == value,
    }
}

/// An HTTP/3 header field: a name, a value and the never-indexed flag
/// (RFC 9204 Section 4.5.4).
#[derive(Debug, Clone, PartialEq, Eq)]
pub struct Header {
    name: Vec<u8>,
    value: Vec<u8>,
    never_indexed: bool,
}

/// The abstract content of a header field.
pub struct HeaderView {
    pub name: Seq<u8>,
    pub value: Seq<u8>,
    pub never_indexed: bool,
}

impl View for Header {
    type V = HeaderView;

    closed spec fn view(&self) -> HeaderView {
        HeaderView { name: self.name@, value: self.value@, never_indexed: self.never_indexed }
    }
}

impl Header {
    /// Checked construction from runtime bytes.
    pub fn new(name: &[u8], value: &[u8]) -> (r: Result<Header, HeaderError>)
        ensures
            header_check(name@, value@) == CheckResult::Valid ==> (r matches Ok(h) && h@.name
                == name@ && h@.value == value@ && !h@.never_indexed),
            header_check(name@, value@) != CheckResult::Valid ==> (r matches Err(e) && error_reports(
                e,
                header_check(name@, value@),
                name@,
                value@,
            )),
    {
        let c = check_header(name, value);
        match c {
            CheckResult::Valid => Ok(
                Header {
                    name: vstd::slice::slice_to_vec(name),
                    value: vstd::slice::slice_to_vec(value),
                    never_indexed: false,
                },
            ),
            CheckResult::EmptyFieldName => Err(HeaderError::EmptyFieldName),
            CheckResult::UppercaseFieldName => Err(
                HeaderError::UppercaseFieldName { name: vstd::slice::slice_to_vec(name) },
            ),
            CheckResult::InvalidFieldNameByte(byte) => Err(
                HeaderError::InvalidFieldNameByte { name: vstd::slice::slice_to_vec(name), byte },
            ),
            CheckResult::InvalidFieldValueByte(byte) => Err(
                HeaderError::InvalidFieldValueByte { name: vstd::slice::slice_to_vec(name), byte },
            ),
            CheckResult::FieldValueLeadingOrTrailingWhitespace => Err(
                HeaderError::FieldValueLeadingOrTrailingWhitespace {
                    name: vstd::slice::slice_to_vec(name),
                },
            ),
            CheckResult::UnknownPseudoHeader => Err(
                HeaderError::UnknownPseudoHeader { name: vstd::slice::slice_to_vec(name) },
            ),
            CheckResult::InvalidPseudoHeaderValue => Err(
                HeaderError::InvalidPseudoHeaderValue {
                    name: vstd::slice::slice_to_vec(name),
                    value: vstd::slice::slice_to_vec(value),
                },
            ),
        }
    }

    /// Construction from bytes known to pass the single-field check.
    pub fn from_static(name: &[u8], value: &[u8]) -> (r: Header)
        requires
            header_check(name@, value@) == CheckResult::Valid,
        ensures
            r@.name == name@,
            r@.value == value@,
            !r@.never_indexed,
    {
        Header {
            name: vstd::slice::slice_to_vec(name),
            value: vstd::slice::slice_to_vec(value),
            never_indexed: false,
        }
    }

    /// Construction without the single-field check, for bytes that came off
    /// the wire (they are checked later, by `validation`).
    pub fn from_validated_parts_internal(name: Vec<u8>, value: Vec<u8>) -> (r: Header)
        ensures
            r@.name == name@,
            r@.value == value@,
            !r@.never_indexed,
    {
        Header { name, value, never_indexed: false }
    }

    /// The name.
    pub fn name(&self) -> (r: &[u8])
        ensures
            r@ == self@.name,
    {
        self.name.as_slice()
    }

    /// The value.
    pub fn value(&self) -> (r: &[u8])
        ensures
            r@ == self@.value,
    {
        self.value.as_slice()
    }

    /// The field size counted against field section limits:
    /// `name.len() + value.len() + 32` (RFC 9114 Section 4.2.2).
    pub fn size(&self) -> (r: usize)
        requires
            self@.name.len() + self@.value.len() + 32 <= usize::MAX,
        ensures
            r == self@.name.len() + self@.value.len() + 32,
    {
        self.name.len() + self.value.len() + 32
    }

    /// The never-indexed flag (RFC 9204 Section 4.5.4).
    pub fn never_indexed(&self) -> (r: bool)
        ensures
            r == self@.never_indexed,
    {
        self.never_indexed
    }

    /// The same field with the never-indexed flag set to `never_indexed`.
    pub fn with_never_indexed(self, never_indexed: bool) -> (r: Header)
        ensures
            r@.name == self@.name,
            r@.value == self@.value,
            r@.never_indexed == never_indexed,
    {
        let mut h = self;
        h.never_indexed = never_indexed;
        h
    }

    /// A copy of this field.
    pub fn duplicate(&self) -> (r: Header)
        ensures
            r@ == self@,
    {
        Header { name: self.name.clone(), value: self.value.clone(), never_indexed: self.never_indexed }
    }
}

/// The pairs a header list is built from, by view.
pub open spec fn pair_views(p: Seq<(Vec<u8>, Vec<u8>)>) -> Seq<(Seq<u8>, Seq<u8>)> {
    p.map_values(|x: (Vec<u8>, Vec<u8>)| (x.0@, x.1@))
}

/// The index of the first name-value pair that fails the single-field check.
pub open spec fn first_invalid_pair(p: Seq<(Seq<u8>, Seq<u8>)>) -> Option<int>
    decreases p.len(),
{
    if p.len() == 0 {
        None
    } else {
        match first_invalid_pair(p.drop_last()) {
            Some(k) => Some(k),
            None => if header_check(p.last().0, p.last().1) != CheckResult::Valid {
                Some(p.len() - 1)
            } else {
                None
            },
        }
    }
}

/// `r` is the header list built from the pairs `p`: the fields in order when
/// every pair passes, else the error of the first pair that fails.
pub open spec fn built_from_pairs(p: Seq<(Seq<u8>, Seq<u8>)>, r: Result<Vec<Header>, HeaderError>) -> bool {
    match first_invalid_pair(p) {
        None => r matches Ok(hs) && hs@.len() == p.len() && forall|i: int|
            0 <= i < p.len() ==> (#[trigger] hs@[i])@.name == p[i].0 && hs@[i]@.value == p[i].1
                && !hs@[i]@.never_indexed,
        Some(k) => r matches Err(e) && error_reports(
            e,
            header_check(p[k].0, p[k].1),
            p[k].0,
            p[k].1,
        ),
    }
}

/// Builds checked header fields from name-value pairs, stopping at the
/// first pair that fails.
pub fn headers_from_pairs(pairs: &[(Vec<u8>, Vec<u8>)]) -> (r: Result<Vec<Header>, HeaderError>)
    ensures
        built_from_pairs(pair_views(pairs@), r),
{
    let ghost p = pair_views(pairs@);
    let mut out: Vec<Header> = Vec::new();
    let mut i: usize = 0;
    while i < pairs.len()
        invariant
            i <= pairs@.len(),
            p == pair_views(pairs@),
            first_invalid_pair(p.take(i as int)) is None,
            out@.len() == i,
            forall|j: int|
                0 <= j < i ==> (#[trigger] out@[j])@.name == p[j].0 && out@[j]@.value == p[j].1
                    && !out@[j]@.never_indexed,
        decreases pairs.len() - i,
    {
        assert(p.take(i + 1).drop_last() =~= p.take(i as int));
        match Header::new(pairs[i].0.as_slice(), pairs[i].1.as_slice()) {
            Ok(h) => {
                out.push(h);
            },
            Err(e) => {
                proof {
                    lemma_first_invalid_extends(p, i as int);
                }
                return Err(e);
            },
        }
        i = i + 1;
    }
    assert(p.take(i as int) =~= p);
    Ok(out)
}

/// An invalid pair after valid ones is the first invalid pair of any longer list.
proof fn lemma_first_invalid_extends(p: Seq<(Seq<u8>, Seq<u8>)>, i: int)
    requires
        0 <= i < p.len(),
        first_invalid_pair(p.take(i)) is None,
        header_check(p[i].0, p[i].1) != CheckResult::Valid,
    ensures
        first_invalid_pair(p) == Some(i),
    decreases p.len(),
{
    if p.len() == i + 1 {
        assert(p.drop_last() =~= p.take(i));
    } else {
        assert(p.drop_last().take(i) =~= p.take(i));
        lemma_first_invalid_extends(p.drop_last(), i);
    }
}

} // verus!
