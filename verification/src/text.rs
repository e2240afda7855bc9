//! Character classes and the mathematical model of the string operations
//! that the validators and the normaliser build on.
//!
//! A string is modelled by its sequence of characters. Lengths that are
//! compared against bounds are lengths of the UTF-8 encoding, in bytes.

use vstd::prelude::*;
use vstd::utf8::*;

verus! {

/// `c` lies in the ASCII range `U+0000 ..= U+007F`.
pub open spec fn is_ascii_char(c: char) -> bool {
    c <= '\u{7f}'
}

/// `c` is one of `'a' ..= 'z'`.
pub open spec fn is_ascii_lowercase_char(c: char) -> bool {
    'a' <= c <= 'z'
}

/// `c` is one of `'A' ..= 'Z'`.
pub open spec fn is_ascii_uppercase_char(c: char) -> bool {
    'A' <= c <= 'Z'
}

/// `c` is one of `'0' ..= '9'`.
pub open spec fn is_ascii_digit_char(c: char) -> bool {
    '0' <= c <= '9'
}

/// The lower-case form of an ASCII upper-case letter; every other character
/// is its own lower-case form.
pub open spec fn ascii_lower(c: char) -> char {
    if is_ascii_uppercase_char(c) {
        ((c as u8) + 32) as char
    } else {
        c
    }
}

/// Every character of `s` mapped through [`ascii_lower`].
pub open spec fn ascii_lowered(s: Seq<char>) -> Seq<char> {
    s.map_values(|c: char| ascii_lower(c))
}

/// `c` carries the Unicode `White_Space` property.
pub open spec fn is_whitespace(c: char) -> bool {
    ||| '\u{9}' <= c <= '\u{d}'
    ||| c == ' '
    ||| c == '\u{85}'
    ||| c == '\u{a0}'
    ||| c == '\u{1680}'
    ||| '\u{2000}' <= c <= '\u{200a}'
    ||| c == '\u{2028}'
    ||| c == '\u{2029}'
    ||| c == '\u{202f}'
    ||| c == '\u{205f}'
    ||| c == '\u{3000}'
}

/// The number of whitespace characters at the front of `s`.
pub open spec fn leading_whitespace(s: Seq<char>) -> nat
    decreases s.len(),
{
    if s.len() > 0 && is_whitespace(s.first()) {
        1 + leading_whitespace(s.drop_first())
    } else {
        0
    }
}

/// The number of whitespace characters at the back of `s`.
pub open spec fn trailing_whitespace(s: Seq<char>) -> nat
    decreases s.len(),
{
    if s.len() > 0 && is_whitespace(s.last()) {
        1 + trailing_whitespace(s.drop_last())
    } else {
        0
    }
}

/// `s` without its leading whitespace.
pub open spec fn without_leading(s: Seq<char>) -> Seq<char> {
    s.skip(leading_whitespace(s) as int)
}

/// `s` without its trailing whitespace.
pub open spec fn without_trailing(s: Seq<char>) -> Seq<char> {
    s.take(s.len() - trailing_whitespace(s))
}

/// `s` without its leading and trailing whitespace.
pub open spec fn trimmed(s: Seq<char>) -> Seq<char> {
    without_trailing(without_leading(s))
}

/// `s` neither starts nor ends with whitespace.
pub open spec fn is_trimmed(s: Seq<char>) -> bool {
    s.len() > 0 ==> !is_whitespace(s.first()) && !is_whitespace(s.last())
}

/// The length of the UTF-8 encoding of `s`, in bytes.
pub open spec fn utf8_len(s: Seq<char>) -> nat {
    encode_utf8(s).len()
}

/// `str::trim` returns the slice that is left when the leading and the
/// trailing characters with the `White_Space` property are removed.
pub assume_specification[ str::trim ](s: &str) -> (r: &str)
    ensures
        r@ == trimmed(s@),
;

/// `String::push` appends the given character to the end of the string.
pub assume_specification[ String::push ](s: &mut String, ch: char)
    ensures
        final(s)@ == old(s)@.push(ch),
;

/// Whether `c` is an ASCII character.
pub fn is_ascii(c: char) -> (r: bool)
    ensures
        r == is_ascii_char(c),
{
    c <= '\u{7f}'
}

/// Whether `c` is an ASCII lower-case letter.
pub fn is_ascii_lowercase(c: char) -> (r: bool)
    ensures
        r == is_ascii_lowercase_char(c),
{
    'a' <= c && c <= 'z'
}

/// Whether `c` is an ASCII decimal digit.
pub fn is_ascii_digit(c: char) -> (r: bool)
    ensures
        r == is_ascii_digit_char(c),
{
    '0' <= c && c <= '9'
}

/// Maps `'A' ..= 'Z'` to `'a' ..= 'z'` and leaves every other character as
/// it is.
pub fn to_ascii_lowercase(c: char) -> (r: char)
    ensures
        r == ascii_lower(c),
{
    if 'A' <= c && c <= 'Z' {
        ((c as u8) + 32) as char
    } else {
        c
    }
}

/// The length of `s` in bytes.
pub fn byte_len(s: &str) -> (n: usize)
    ensures
        n == utf8_len(s@),
{
    s.as_bytes().len()
}

/// Whether the last character of `s` is `'-'`.
pub fn ends_with_hyphen(s: &str) -> (r: bool)
    ensures
        r == (s@.len() > 0 && s@.last() == '-'),
{
    let bytes = s.as_bytes();
    let n = bytes.len();
    proof {
        lemma_utf8_len_zero(s@);
        if s@.len() > 0 {
            lemma_utf8_last_byte(s@);
            assert(bytes@.last() == bytes@[n - 1]);
            lemma_ascii_byte(s@.last(), '-');
        }
    }
    if n == 0 {
        false
    } else {
        bytes[n - 1] == 0x2d
    }
}

/// Lower-casing touches ASCII upper-case letters only, and what it yields is
/// an ASCII lower-case letter.
pub proof fn lemma_ascii_lower(c: char)
    ensures
        is_ascii_uppercase_char(c) ==> is_ascii_lowercase_char(ascii_lower(c)) && ascii_lower(c)
            != c,
        !is_ascii_uppercase_char(c) ==> ascii_lower(c) == c,
        ascii_lower(ascii_lower(c)) == ascii_lower(c),
        is_ascii_char(c) <==> is_ascii_char(ascii_lower(c)),
        is_whitespace(c) <==> is_whitespace(ascii_lower(c)),
{
}

/// An ASCII character is its own byte: two ASCII characters with the same
/// byte are the same character.
pub proof fn lemma_ascii_byte(c: char, d: char)
    ensures
        '\0' <= c,
        is_ascii_char(c) && is_ascii_char(d) && c as u8 == d as u8 ==> c == d,
{
}

/// The encoding of a single character has between one and four bytes, and
/// its last byte is the character itself exactly when the character is
/// ASCII.
pub proof fn lemma_encode_scalar(c: char)
    ensures
        1 <= encode_scalar(c as u32).len() <= 4,
        is_ascii_char(c) ==> encode_scalar(c as u32).last() == c as u8,
        !is_ascii_char(c) ==> encode_scalar(c as u32).last() >= 0x80,
{
    let v = c as u32;
    if has_width_1_encoding(v) {
        assert(leading_byte_width_1(v) == v as u8) by (bit_vector)
            requires
                v <= 0x7f,
        ;
    } else {
        assert(last_continuation_byte(v) >= 0x80) by (bit_vector);
    }
}

/// Encoding distributes over concatenation, so byte lengths add up.
pub proof fn lemma_utf8_len_concat(a: Seq<char>, b: Seq<char>)
    ensures
        encode_utf8(a + b) == encode_utf8(a) + encode_utf8(b),
        utf8_len(a + b) == utf8_len(a) + utf8_len(b),
    decreases a.len(),
{
    if a.len() == 0 {
        assert(a + b =~= b);
        assert(encode_utf8(a) + encode_utf8(b) =~= encode_utf8(b));
    } else {
        lemma_utf8_len_concat(a.drop_first(), b);
        assert((a + b).drop_first() =~= a.drop_first() + b);
        assert((a + b)[0] == a[0]);
        assert(encode_utf8(a + b) =~= encode_utf8(a) + encode_utf8(b));
    }
}

/// A string has at least as many bytes as characters.
pub proof fn lemma_utf8_len_lower_bound(s: Seq<char>)
    ensures
        utf8_len(s) >= s.len(),
    decreases s.len(),
{
    if s.len() > 0 {
        lemma_encode_scalar(s[0]);
        lemma_utf8_len_lower_bound(s.drop_first());
    }
}

/// Only the empty string has no bytes.
pub proof fn lemma_utf8_len_zero(s: Seq<char>)
    ensures
        utf8_len(s) == 0 <==> s.len() == 0,
{
    lemma_utf8_len_lower_bound(s);
}

/// The last byte of a non-empty string tells whether its last character is
/// ASCII, and which ASCII character it is.
pub proof fn lemma_utf8_last_byte(s: Seq<char>)
    requires
        s.len() > 0,
    ensures
        utf8_len(s) > 0,
        is_ascii_char(s.last()) ==> encode_utf8(s).last() == s.last() as u8,
        !is_ascii_char(s.last()) ==> encode_utf8(s).last() >= 0x80,
{
    let front = s.drop_last();
    let back = seq![s.last()];
    assert(s =~= front + back);
    lemma_utf8_len_concat(front, back);
    lemma_encode_scalar(s.last());
    assert(back.drop_first() =~= Seq::<char>::empty());
    assert(encode_utf8(back) =~= encode_scalar(s.last() as u32)) by {
        reveal_with_fuel(encode_utf8, 2);
    }
}

/// A string of ASCII characters has as many bytes as characters.
pub proof fn lemma_utf8_len_ascii(s: Seq<char>)
    requires
        forall|i: int| 0 <= i < s.len() ==> is_ascii_char(#[trigger] s[i]),
    ensures
        utf8_len(s) == s.len(),
{
    assert forall|i: int| 0 <= i < s.len() implies '\0' <= #[trigger] s[i] <= '\u{7f}' by {
        lemma_ascii_byte(s[i], s[i]);
    }
    is_ascii_chars_encode_utf8(s);
}

/// Leading and trailing whitespace never exceed the string.
pub proof fn lemma_whitespace_bounds(s: Seq<char>)
    ensures
        leading_whitespace(s) <= s.len(),
        trailing_whitespace(s) <= s.len(),
        leading_whitespace(s) == 0 <==> (s.len() > 0 ==> !is_whitespace(s.first())),
        trailing_whitespace(s) == 0 <==> (s.len() > 0 ==> !is_whitespace(s.last())),
    decreases s.len(),
{
    if s.len() > 0 {
        lemma_whitespace_bounds(s.drop_first());
        lemma_whitespace_bounds(s.drop_last());
    }
}

/// What trimming leaves is a contiguous part of the string that neither
/// starts nor ends with whitespace.
pub proof fn lemma_trim_is_trimmed(s: Seq<char>)
    ensures
        is_trimmed(trimmed(s)),
        trimmed(s).len() <= s.len(),
{
    lemma_whitespace_bounds(s);
    lemma_without_leading_first(s);
    let t = without_leading(s);
    lemma_whitespace_bounds(t);
    lemma_without_trailing_last(t);
    let u = without_trailing(t);
    if u.len() > 0 {
        assert(u.first() == t.first());
    }
}

/// Without its leading whitespace, the string's first character, if any, is no whitespace.
pub proof fn lemma_without_leading_first(s: Seq<char>)
    ensures
        without_leading(s).len() > 0 ==> !is_whitespace(without_leading(s).first()),
    decreases s.len(),
{
    lemma_whitespace_bounds(s);
    if s.len() > 0 && is_whitespace(s.first()) {
        let r = s.drop_first();
        lemma_without_leading_first(r);
        lemma_whitespace_bounds(r);
        assert(without_leading(s) =~= without_leading(r));
    } else {
        assert(without_leading(s) =~= s);
    }
}

/// Without its trailing whitespace, the string's last character, if any, is no whitespace.
pub proof fn lemma_without_trailing_last(s: Seq<char>)
    ensures
        without_trailing(s).len() > 0 ==> !is_whitespace(without_trailing(s).last()),
    decreases s.len(),
{
    lemma_whitespace_bounds(s);
    if s.len() > 0 && is_whitespace(s.last()) {
        let r = s.drop_last();
        lemma_without_trailing_last(r);
        lemma_whitespace_bounds(r);
        assert(without_trailing(s) =~= without_trailing(r));
    } else {
        assert(without_trailing(s) =~= s);
    }
}

/// A string is trimmed exactly when trimming leaves it as it is, and exactly
/// when trimming leaves its byte length as it is.
pub proof fn lemma_trimmed_iff_fixed(s: Seq<char>)
    ensures
        is_trimmed(s) <==> trimmed(s) == s,
        is_trimmed(s) <==> utf8_len(trimmed(s)) == utf8_len(s),
{
    lemma_whitespace_bounds(s);
    let t = without_leading(s);
    lemma_whitespace_bounds(t);
    let u = trimmed(s);
    let lead = s.take(leading_whitespace(s) as int);
    let trail = t.skip(t.len() - trailing_whitespace(t));
    assert(s =~= lead + t);
    assert(t =~= u + trail);
    lemma_utf8_len_concat(lead, t);
    lemma_utf8_len_concat(u, trail);
    lemma_utf8_len_zero(lead);
    lemma_utf8_len_zero(trail);
    if is_trimmed(s) {
        assert(t =~= s);
        assert(u =~= s);
    } else {
        if leading_whitespace(s) == 0 {
            assert(t =~= s);
        }
        assert(u.len() < s.len());
    }
}

} // verus!
