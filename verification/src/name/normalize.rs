//! The character-safety predicate and the normaliser.
//!
//! The normaliser walks its input from left to right and appends to an
//! output string. A character that is name-safe once lower-cased is appended;
//! anything else asks for a separator, and a separator is appended only when
//! the output does not already end with one. Whether a separator is due is
//! decided by looking at the last character of the output and nothing else,
//! so a literal `-` followed by unsafe characters is not doubled, and a
//! separator left by a multi-character transliteration stays where it is.

use vstd::prelude::*;

use crate::name::laws::lemma_name_from_safe;
use crate::text::{
    ascii_lower, ends_with_hyphen, is_ascii, is_ascii_char, is_ascii_digit,
    is_ascii_digit_char, is_ascii_lowercase, is_ascii_lowercase_char, to_ascii_lowercase,
    trimmed,
};

verus! {

/// A character is name-safe when it is an ASCII lower-case letter, an ASCII
/// digit, `-` or `_`.
pub open spec fn name_safe(c: char) -> bool {
    is_ascii_lowercase_char(c) || is_ascii_digit_char(c) || c == '-' || c == '_'
}

/// Every character of `s` is name-safe.
pub open spec fn all_name_safe(s: Seq<char>) -> bool {
    forall|i: int| 0 <= i < s.len() ==> name_safe(#[trigger] s[i])
}

/// The ASCII replacement that the transliteration table holds for `c`, if it
/// holds one.
pub uninterp spec fn transliteration(c: char) -> Option<Seq<char>>;

/// `out` after a separator was asked for: a `-` is appended unless `out`
/// already ends with one.
pub open spec fn with_separator(out: Seq<char>) -> Seq<char> {
    if out.len() > 0 && out.last() == '-' {
        out
    } else {
        out.push('-')
    }
}

/// `out` after one character was processed: its lower-case form is appended
/// when that is name-safe, otherwise a separator is asked for.
pub open spec fn with_char(out: Seq<char>, c: char) -> Seq<char> {
    if name_safe(ascii_lower(c)) {
        out.push(ascii_lower(c))
    } else {
        with_separator(out)
    }
}

/// `out` after the characters of `cs` were processed in order.
pub open spec fn with_chars(out: Seq<char>, cs: Seq<char>) -> Seq<char>
    decreases cs.len(),
{
    if cs.len() == 0 {
        out
    } else {
        with_char(with_chars(out, cs.drop_last()), cs.last())
    }
}

/// `out` after the outcome of a transliteration was processed: the
/// characters of the replacement where there is one, a separator where there
/// is none.
pub open spec fn with_replacement(out: Seq<char>, replacement: Option<Seq<char>>) -> Seq<char> {
    match replacement {
        Some(cs) => with_chars(out, cs),
        None => with_separator(out),
    }
}

/// `out` after one character of the source text was processed: an ASCII
/// character directly, any other through its transliteration.
pub open spec fn with_source_char(out: Seq<char>, c: char) -> Seq<char> {
    if is_ascii_char(c) {
        with_char(out, c)
    } else {
        with_replacement(out, transliteration(c))
    }
}

/// `out` after the source text `input` was processed from left to right.
pub open spec fn name_from(out: Seq<char>, input: Seq<char>) -> Seq<char>
    decreases input.len(),
{
    if input.len() == 0 {
        out
    } else {
        with_source_char(name_from(out, input.drop_last()), input.last())
    }
}

/// The normalised form of `input`: its boundary whitespace is removed and
/// what is left is processed into an empty output.
pub open spec fn normalized_name(input: Seq<char>) -> Seq<char> {
    name_from(Seq::empty(), trimmed(input))
}

/// The view of an optional string slice.
pub open spec fn replacement_view(replacement: Option<&str>) -> Option<Seq<char>> {
    match replacement {
        Some(s) => Some(s@),
        None => None,
    }
}

/// `deunicode::deunicode_char` looks the character up in the crate's fixed
/// table and returns the replacement stored there, or `None` for a character
/// the table does not cover. The replacement depends on the character alone;
/// nothing is claimed of what it holds.
#[verifier::external_body]
fn deunicode_char(ch: char) -> (res: Option<&'static str>)
    ensures
        replacement_view(res) == transliteration(ch),
{
    deunicode::deunicode_char(ch)
}

/// Whether `ch` is name-safe.
pub fn is_name_safe_char(ch: char) -> (res: bool)
    ensures
        res == name_safe(ch),
{
    is_ascii_lowercase(ch) || is_ascii_digit(ch) || ch == '-' || ch == '_'
}

/// Whether every character of `input` is name-safe. The empty string is
/// accepted.
pub fn validate_name_chars(input: &str) -> (res: bool)
    ensures
        res == all_name_safe(input@),
{
    for ch in it: input.chars()
        invariant
            it.seq() == input@,
            all_name_safe(input@.take(it.index())),
    {
        if !is_name_safe_char(ch) {
            assert(input@[it.index()] == ch);
            return false;
        }
        assert(all_name_safe(input@.take(it.index() + 1))) by {
            assert forall|i: int| 0 <= i < it.index() + 1 implies name_safe(
                #[trigger] input@.take(it.index() + 1)[i],
            ) by {
                if i < it.index() {
                    assert(input@.take(it.index())[i] == input@[i]);
                }
            }
        }
    }
    assert(forall|i: int|
        0 <= i < input@.len() ==> input@.take(input@.len() as int)[i] == input@[i]);
    true
}

/// Appends `-` to `output` unless `output` already ends with `-`.
pub fn push_separator(output: &mut String)
    ensures
        final(output)@ == with_separator(old(output)@),
{
    if !ends_with_hyphen(output.as_str()) {
        output.push('-');
    }
}

/// Lower-cases `ch` and appends it to `output` when the result is
/// name-safe; otherwise asks for a separator.
pub fn process_char(ch: char, output: &mut String)
    ensures
        final(output)@ == with_char(old(output)@, ch),
{
    let ch = to_ascii_lowercase(ch);
    if is_name_safe_char(ch) {
        output.push(ch);
    } else {
        push_separator(output);
    }
}

/// Processes every character of `chars` into `output`, in order.
pub fn process_chars(chars: &str, output: &mut String)
    ensures
        final(output)@ == with_chars(old(output)@, chars@),
{
    for ch in it: chars.chars()
        invariant
            it.seq() == chars@,
            output@ == with_chars(old(output)@, chars@.take(it.index())),
    {
        assert(chars@.take(it.index() + 1).drop_last() =~= chars@.take(it.index()));
        process_char(ch, output);
    }
    assert(chars@.take(chars@.len() as int) =~= chars@);
}

/// Processes the outcome of transliterating one character into `output`:
/// the replacement character by character where there is one, a separator
/// where there is none.
pub fn process_transliteration(replacement: Option<&str>, output: &mut String)
    ensures
        final(output)@ == with_replacement(old(output)@, replacement_view(replacement)),
{
    match replacement {
        Some(chars) => process_chars(chars, output),
        None => push_separator(output),
    }
}

/// Processes the source text `input` into `output`, character by character:
/// ASCII characters directly, all others through their transliteration.
/// What is appended is name-safe, so a name-safe output stays name-safe.
pub fn make_name(input: &str, output: &mut String)
    ensures
        final(output)@ == name_from(old(output)@, input@),
        all_name_safe(old(output)@) ==> all_name_safe(final(output)@),
{
    proof {
        if all_name_safe(old(output)@) {
            lemma_name_from_safe(old(output)@, input@);
        }
    }
    for ch in it: input.chars()
        invariant
            it.seq() == input@,
            output@ == name_from(old(output)@, input@.take(it.index())),
    {
        assert(input@.take(it.index() + 1).drop_last() =~= input@.take(it.index()));
        if is_ascii(ch) {
            process_char(ch, output);
        } else {
            process_transliteration(deunicode_char(ch), output);
        }
    }
    assert(input@.take(input@.len() as int) =~= input@);
}

/// Trims `input` and normalises what is left into a new string, which is
/// name-safe.
pub fn normalize_name(input: &str) -> (res: String)
    ensures
        res@ == normalized_name(input@),
        all_name_safe(res@),
{
    let mut normalized = String::new();
    make_name(input.trim(), &mut normalized);
    normalized
}

} // verus!
