//! Leaf validators: inclusive length bounds, boundary whitespace, ASCII case.
//!
//! Lengths are measured in UTF-8 code units (bytes), never in characters or
//! grapheme clusters, and the same unit is used for checking and reporting.

use vstd::prelude::*;

use crate::text::{
    byte_len, is_ascii_lowercase, is_ascii_lowercase_char, is_trimmed, lemma_trimmed_iff_fixed,
    trimmed, utf8_len,
};

verus! {

/// The bounds that were asked for and the length that was found.
#[derive(Debug, Clone, Copy, PartialEq, Eq, Structural)]
pub struct InvalidLengthError {
    pub min: usize,
    pub max: usize,
    pub actual: usize,
}

/// Whether `len` lies within the inclusive bounds `min..=max`.
pub open spec fn length_in_bounds(len: int, min: int, max: int) -> bool {
    min <= len <= max
}

/// Accepts `len` exactly when `min <= len <= max`; otherwise reports both
/// bounds and the offending length.
pub fn validate_length(len: usize, min: usize, max: usize) -> (res: Result<(), InvalidLengthError>)
    ensures
        res is Ok <==> length_in_bounds(len as int, min as int, max as int),
        res is Err ==> res == Err::<(), InvalidLengthError>(
            (InvalidLengthError { min, max, actual: len }),
        ),
{
    if len < min || len > max {
        Err(InvalidLengthError { min, max, actual: len })
    } else {
        Ok(())
    }
}

/// Every character of `s` is one of `'a' ..= 'z'`.
pub open spec fn all_ascii_lowercase(s: Seq<char>) -> bool {
    forall|i: int| 0 <= i < s.len() ==> is_ascii_lowercase_char(#[trigger] s[i])
}

/// Accepts a string that neither starts nor ends with whitespace: one whose
/// byte length is the byte length of what trimming leaves of it.
pub fn validate_trimmed(input: &str) -> (res: bool)
    ensures
        res == is_trimmed(input@),
        res == (utf8_len(trimmed(input@)) == utf8_len(input@)),
{
    proof {
        lemma_trimmed_iff_fixed(input@);
    }
    byte_len(input) == byte_len(input.trim())
}

/// Accepts a string made of the letters `'a' ..= 'z'` only; the empty string
/// is accepted.
pub fn validate_is_ascii_lowercase(input: &str) -> (res: bool)
    ensures
        res == all_ascii_lowercase(input@),
{
    for ch in it: input.chars()
        invariant
            it.seq() == input@,
            all_ascii_lowercase(input@.take(it.index())),
    {
        if !is_ascii_lowercase(ch) {
            assert(input@[it.index()] == ch);
            return false;
        }
        assert(all_ascii_lowercase(input@.take(it.index() + 1))) by {
            assert forall|i: int| 0 <= i < it.index() + 1 implies is_ascii_lowercase_char(
                #[trigger] input@.take(it.index() + 1)[i],
            ) by {
                if i < it.index() {
                    assert(input@.take(it.index())[i] == input@[i]);
                }
            }
        }
    }
    assert(forall|i: int| 0 <= i < input@.len() ==> input@.take(input@.len() as int)[i] == input@[i]);
    true
}

} // verus!
