//! Text conversions at the edge of the byte-oriented protocol code.

use vstd::prelude::*;
use vstd::utf8::{valid_utf8, decode_utf8, encode_utf8, is_continuation_byte, is_char_boundary};
use vstd::string::StringSliceAdditionalSpecFns;

verus! {

/// `core::str::from_utf8`: the bytes as a string slice when they are valid
/// UTF-8 (the slice then holds exactly those bytes), `None` otherwise.
#[verifier::external_body]
pub(crate) fn str_from_utf8(v: &[u8]) -> (r: Option<&str>)
    ensures
        r is Some <==> valid_utf8(v@),
        r matches Some(s) ==> s.spec_bytes() == v@,
{
    match core::str::from_utf8(v) {
        Ok(s) => Some(s),
        Err(_) => None,
    }
}

/// `String::push`: appends one character.
#[verifier::external_body]
pub(crate) fn string_push(s: &mut String, c: char)
    ensures
        final(s)@ == old(s)@.push(c),
{
    s.push(c);
}

/// The characters of a string slice, in order.
pub fn chars_of(s: &str) -> (r: Vec<char>)
    ensures
        r@ == s@,
{
    broadcast use vstd::string::axiom_spec_iter;
    let mut v: Vec<char> = Vec::new();
    for c in it: s.chars()
        invariant
            v@.len() == it.index(),
            forall|i: int| 0 <= i < v@.len() ==> v@[i] == it.seq()[i],
    {
        v.push(c);
    }
    assert(v@ =~= s@);
    v
}

/// A string of the characters `chars`.
pub fn string_from_chars(chars: &[char]) -> (r: String)
    ensures
        r@ == chars@,
{
    let mut s = String::new();
    let mut i: usize = 0;
    while i < chars.len()
        invariant
            i <= chars@.len(),
            s@ == chars@.take(i as int),
        decreases chars.len() - i,
    {
        string_push(&mut s, chars[i]);
        assert(chars@.take(i + 1) =~= chars@.take(i as int).push(chars@[i as int]));
        i = i + 1;
    }
    assert(chars@.take(chars@.len() as int) =~= chars@);
    s
}

/// The largest character boundary of the bytes `b` at or below `k`.
pub open spec fn char_floor(b: Seq<u8>, k: int) -> int
    decreases k,
{
    if k <= 0 {
        0
    } else if k >= b.len() {
        b.len() as int
    } else if !is_continuation_byte(b[k]) {
        k
    } else {
        char_floor(b, k - 1)
    }
}

/// `s` cut to at most `max` bytes of UTF-8 at a character boundary.
pub open spec fn truncated_text(s: Seq<char>, max: nat) -> Seq<char> {
    let b = encode_utf8(s);
    if b.len() <= max {
        s
    } else {
        decode_utf8(b.take(char_floor(b, max as int)))
    }
}

/// The string `s` cut to at most `max` bytes, at the last character
/// boundary that fits; its bytes are a prefix of those of `s`.
pub fn truncate_text(s: &str, max: usize) -> (r: String)
    ensures
        r@ == truncated_text(s@, max as nat),
        encode_utf8(r@).len() <= max || r@ == s@,
        encode_utf8(s@).len() <= max ==> r@ == s@,
        encode_utf8(r@) == encode_utf8(s@).take(encode_utf8(r@).len() as int),
{
    let b = s.as_bytes();
    proof {
        vstd::utf8::encode_utf8_valid_utf8(s@);
    }
    if b.len() <= max {
        let r = s.to_owned();
        assert(encode_utf8(s@).take(encode_utf8(s@).len() as int) =~= encode_utf8(s@));
        return r;
    }
    let mut end = max;
    while end > 0 && 0x80 <= b[end] && b[end] <= 0xbf
        invariant
            end <= max < b@.len(),
            char_floor(b@, max as int) == char_floor(b@, end as int),
        decreases end,
    {
        end = end - 1;
    }
    proof {
        let bs = b@;
        if end == 0 {
            vstd::utf8::is_char_boundary_start_end_of_seq(bs);
        } else {
            vstd::utf8::is_char_boundary_iff_not_is_continuation_byte(bs, end as int);
        }
        assert(is_char_boundary(bs, end as int));
        vstd::utf8::valid_utf8_split(bs, end as int);
        assert(bs.subrange(0, end as int) =~= bs.take(end as int));
    }
    let prefix = &b[0..end];
    assert(prefix@ =~= b@.take(end as int));
    match str_from_utf8(prefix) {
        Some(t) => {
            proof {
                vstd::utf8::decode_utf8_encode_utf8(prefix@);
                vstd::utf8::encode_utf8_decode_utf8(t@);
            }
            t.to_owned()
        },
        None => String::new(),
    }
}

/// The digit `d` in base 10 or 16, lower case.
pub open spec fn digit_char(d: nat) -> char {
    if d < 10 {
        (48 + d) as char
    } else {
        (87 + d) as char
    }
}

/// The digits of `n` in base `base`, most significant first, no leading zeros.
pub open spec fn radix_chars(n: nat, base: nat) -> Seq<char>
    decreases n,
{
    if base < 2 || n < base {
        seq![digit_char(n)]
    } else {
        proof {
            vstd::arithmetic::div_mod::lemma_div_decreases(n as int, base as int);
        }
        radix_chars(n / base, base).push(digit_char(n % base))
    }
}

/// The decimal digits of `n`.
pub open spec fn decimal_chars(n: nat) -> Seq<char> {
    radix_chars(n, 10)
}

/// `0x` and the lower-case hexadecimal digits of `n`, as `{:#x}` writes it.
pub open spec fn hex_chars(n: nat) -> Seq<char> {
    seq!['0', 'x'] + radix_chars(n, 16)
}

/// The two lower-case hexadecimal digits of a byte, as `{:02x}` writes it.
pub open spec fn hex2_chars(b: u8) -> Seq<char> {
    seq![digit_char(b as nat / 16), digit_char(b as nat % 16)]
}

/// The character of digit `d`.
fn digit(d: u64) -> (r: char)
    requires
        d < 16,
    ensures
        r == digit_char(d as nat),
{
    if d < 10 {
        ((48 + d) as u8) as char
    } else {
        ((87 + d) as u8) as char
    }
}

/// Appends the digits of `n` in base `base`.
pub fn push_radix(out: &mut Vec<char>, n: u64, base: u64)
    requires
        base == 10 || base == 16,
    ensures
        final(out)@ == old(out)@ + radix_chars(n as nat, base as nat),
    decreases n,
{
    if n < base {
        out.push(digit(n));
    } else {
        push_radix(out, n / base, base);
        out.push(digit(n % base));
    }
    proof {
        assert(final(out)@ =~= old(out)@ + radix_chars(n as nat, base as nat));
    }
}

/// Appends `0x` and the hexadecimal digits of `n`.
pub fn push_hex(out: &mut Vec<char>, n: u64)
    ensures
        final(out)@ == old(out)@ + hex_chars(n as nat),
{
    out.push('0');
    out.push('x');
    push_radix(out, n, 16);
    assert(final(out)@ =~= old(out)@ + hex_chars(n as nat));
}

/// Appends the two hexadecimal digits of a byte.
pub fn push_hex2(out: &mut Vec<char>, b: u8)
    ensures
        final(out)@ == old(out)@ + hex2_chars(b),
{
    out.push(digit(b as u64 / 16));
    out.push(digit(b as u64 % 16));
    assert(final(out)@ =~= old(out)@ + hex2_chars(b));
}

/// Appends the characters of `s`.
pub fn push_str(out: &mut Vec<char>, s: &str)
    ensures
        final(out)@ == old(out)@ + s@,
{
    let cs = chars_of(s);
    let ghost start = out@;
    let mut i: usize = 0;
    while i < cs.len()
        invariant
            i <= cs@.len(),
            out@ == start + cs@.take(i as int),
        decreases cs.len() - i,
    {
        out.push(cs[i]);
        assert(cs@.take(i + 1) =~= cs@.take(i as int).push(cs@[i as int]));
        i = i + 1;
    }
    assert(cs@.take(cs@.len() as int) =~= cs@);
}

/// A byte as `std::ascii::escape_default` shows it: `\t`, `\r`, `\n`,
/// `\'`, `\"` and `\\` for those, printable ASCII as itself, `\xHH`
/// otherwise.
pub open spec fn escape_byte(b: u8) -> Seq<char> {
    if b == 0x09 {
        seq!['\\', 't']
    } else if b == 0x0d {
        seq!['\\', 'r']
    } else if b == 0x0a {
        seq!['\\', 'n']
    } else if b == 0x27 {
        seq!['\\', '\'']
    } else if b == 0x22 {
        seq!['\\', '"']
    } else if b == 0x5c {
        seq!['\\', '\\']
    } else if 0x20 <= b <= 0x7e {
        seq![b as char]
    } else {
        seq!['\\', 'x'] + hex2_chars(b)
    }
}

/// The escapes of a run of bytes.
pub open spec fn escaped_bytes(s: Seq<u8>) -> Seq<char>
    decreases s.len(),
{
    if s.len() == 0 {
        Seq::empty()
    } else {
        escaped_bytes(s.drop_last()) + escape_byte(s.last())
    }
}

/// Bytes shown in an error message: the escapes of the first 64, then
/// `...` where there were more.
pub open spec fn escaped_display(s: Seq<u8>) -> Seq<char> {
    if s.len() > 64 {
        escaped_bytes(s.take(64)) + seq!['.', '.', '.']
    } else {
        escaped_bytes(s)
    }
}

/// Appends the escape of a byte.
fn push_escaped_byte(out: &mut Vec<char>, b: u8)
    ensures
        final(out)@ == old(out)@ + escape_byte(b),
{
    if b == 0x09 {
        out.push('\\');
        out.push('t');
    } else if b == 0x0d {
        out.push('\\');
        out.push('r');
    } else if b == 0x0a {
        out.push('\\');
        out.push('n');
    } else if b == 0x27 {
        out.push('\\');
        out.push('\'');
    } else if b == 0x22 {
        out.push('\\');
        out.push('"');
    } else if b == 0x5c {
        out.push('\\');
        out.push('\\');
    } else if 0x20 <= b && b <= 0x7e {
        out.push(b as char);
    } else {
        out.push('\\');
        out.push('x');
        push_hex2(out, b);
    }
    assert(final(out)@ =~= old(out)@ + escape_byte(b));
}

/// Appends bytes as error messages show them.
pub fn push_escaped_display(out: &mut Vec<char>, s: &[u8])
    ensures
        final(out)@ == old(out)@ + escaped_display(s@),
{
    let n: usize = if s.len() > 64 { 64 } else { s.len() };
    let ghost start = out@;
    let mut i: usize = 0;
    while i < n
        invariant
            i <= n <= s@.len(),
            out@ == start + escaped_bytes(s@.take(i as int)),
        decreases n - i,
    {
        push_escaped_byte(out, s[i]);
        assert(s@.take(i + 1).drop_last() =~= s@.take(i as int));
        assert(s@.take(i + 1).last() == s@[i as int]);
        assert(out@ =~= start + escaped_bytes(s@.take(i + 1)));
        i = i + 1;
    }
    if s.len() > 64 {
        out.push('.');
        out.push('.');
        out.push('.');
    } else {
        assert(s@.take(n as int) =~= s@);
    }
    assert(out@ =~= start + escaped_display(s@));
}

} // verus!
