//! The builder protocol and its default implementation.
//!
//! A builder validates a string, or repairs it once by normalising it and
//! validates the result. Normalisation is a repair path only: a string that
//! already passes validation is wrapped as it is.

use vstd::prelude::*;

use crate::name::error::{InvalidCharactersError, NameError};
use crate::name::normalize::{all_name_safe, make_name, name_from, validate_name_chars};
use crate::name::value::Name;
use crate::text::{
    ascii_lower, ascii_lowered, byte_len, is_trimmed, to_ascii_lowercase, trimmed, utf8_len,
};
use crate::validation::{validate_length, validate_trimmed, InvalidLengthError};

verus! {

/// What a builder's result says in terms of character sequences.
pub open spec fn name_view<E>(res: Result<Name, E>) -> Result<Seq<char>, E> {
    match res {
        Ok(name) => Ok(name@),
        Err(error) => Err(error),
    }
}

/// What a normaliser's result says in terms of character sequences.
pub open spec fn string_view<E>(res: Result<String, E>) -> Result<Seq<char>, E> {
    match res {
        Ok(string) => Ok(string@),
        Err(error) => Err(error),
    }
}

/// What building from `input` yields once its validation is known: the
/// input itself where it validated, the validation error where it did not.
pub open spec fn build_outcome<E>(input: Seq<char>, validation: Result<(), E>) -> Result<
    Seq<char>,
    E,
> {
    match validation {
        Ok(_) => Ok(input),
        Err(error) => Err(error),
    }
}

/// What building with repair yields from `input`, given the validation of
/// the input, its normalisation, and the validation of the normalised
/// form: the input itself where it validated; otherwise what building from
/// the normalised form yields, or the normaliser's error. The first
/// validation error is discarded.
pub open spec fn repair_outcome<E>(
    input: Seq<char>,
    validation: Result<(), E>,
    normalization: Result<Seq<char>, E>,
    revalidation: Result<(), E>,
) -> Result<Seq<char>, E> {
    if validation is Ok {
        Ok(input)
    } else {
        match normalization {
            Ok(normalized) => build_outcome(normalized, revalidation),
            Err(error) => Err(error),
        }
    }
}

/// A validation policy together with the repair that goes with it.
///
/// An implementation supplies `validate` and `normalize` and says, with
/// `validation` and `normalization`, what they compute; `build` and
/// `build_with_normalize` are derived from them.
pub trait NameBulder: Sized {
    type Error;

    /// The outcome of validating `input`.
    spec fn validation(&self, input: Seq<char>) -> Result<(), Self::Error>;

    /// The outcome of normalising `input`.
    spec fn normalization(&self, input: Seq<char>) -> Result<Seq<char>, Self::Error>;

    /// Checks `input` against the policy.
    fn validate(&self, input: &str) -> (res: Result<(), Self::Error>)
        ensures
            res == self.validation(input@),
    ;

    /// Produces the normalised candidate for `input`.
    fn normalize(&self, input: &str) -> (res: Result<String, Self::Error>)
        ensures
            string_view(res) == self.normalization(input@),
    ;

    /// Validates `input` and wraps it, untouched, as a name.
    fn build(&self, input: &str) -> (res: Result<Name, Self::Error>)
        ensures
            name_view(res) == build_outcome(input@, self.validation(input@)),
    {
        match self.validate(input) {
            Ok(_) => Ok(Name::from_raw(input.to_owned())),
            Err(error) => Err(error),
        }
    }

    /// Wraps `input` as a name where it validates as it stands; otherwise
    /// normalises it and builds from the normalised form, once.
    fn build_with_normalize(&self, input: &str) -> (res: Result<Name, Self::Error>)
        ensures
            name_view(res) == repair_outcome(
                input@,
                self.validation(input@),
                self.normalization(input@),
                self.validation(self.normalization(input@)->Ok_0),
            ),
    {
        if self.validate(input).is_ok() {
            return Ok(Name::from_raw(input.to_owned()));
        }
        match self.normalize(input) {
            Ok(normalized) => self.build(normalized.as_str()),
            Err(error) => Err(error),
        }
    }
}

/// What `build` returns for `input`, as a character sequence.
pub open spec fn built<B: NameBulder>(builder: &B, input: Seq<char>) -> Result<
    Seq<char>,
    B::Error,
> {
    build_outcome(input, builder.validation(input))
}

/// What `build_with_normalize` returns for `input`, as a character
/// sequence.
pub open spec fn built_with_normalize<B: NameBulder>(builder: &B, input: Seq<char>) -> Result<
    Seq<char>,
    B::Error,
> {
    repair_outcome(
        input,
        builder.validation(input),
        builder.normalization(input),
        builder.validation(builder.normalization(input)->Ok_0),
    )
}

/// The configuration of the default policy. An absent bound is no bound.
#[derive(Debug)]
pub struct DefaultNameBuilder {
    pub min_length: Option<usize>,
    pub max_length: Option<usize>,
    pub char_validation_enabled: bool,
    pub trim_validation_enabled: bool,
}

impl Default for DefaultNameBuilder {
    /// The configuration that checks nothing.
    fn default() -> (res: Self)
        ensures
            res.min_length is None,
            res.max_length is None,
            !res.char_validation_enabled,
            !res.trim_validation_enabled,
    {
        Self {
            min_length: None,
            max_length: None,
            char_validation_enabled: false,
            trim_validation_enabled: false,
        }
    }
}

impl DefaultNameBuilder {
    /// The lower bound that is reported and checked: 0 where none is set.
    pub open spec fn lower_bound(&self) -> usize {
        match self.min_length {
            Some(min) => min,
            None => 0,
        }
    }

    /// The upper bound that is reported and checked for a string of byte
    /// length `len`: `len` itself where none is set.
    pub open spec fn upper_bound(&self, len: usize) -> usize {
        match self.max_length {
            Some(max) => max,
            None => len,
        }
    }

    /// Whether a length check is configured at all.
    pub open spec fn checks_length(&self) -> bool {
        self.min_length is Some || self.max_length is Some
    }

    /// Whether a string of `len` bytes passes the length check.
    pub open spec fn length_accepted(&self, len: usize) -> bool {
        self.checks_length() ==> self.lower_bound() <= len <= self.upper_bound(len)
    }

    /// The default policy: 2 to 512 bytes, name-safe characters only, no
    /// boundary whitespace.
    pub fn new() -> (res: Self)
        ensures
            res.min_length == Some(2usize),
            res.max_length == Some(512usize),
            res.char_validation_enabled,
            res.trim_validation_enabled,
    {
        Self {
            min_length: Some(2),
            max_length: Some(512),
            char_validation_enabled: true,
            trim_validation_enabled: true,
        }
    }

    /// Sets the lower bound.
    pub fn with_min_length(self, min: usize) -> (res: Self)
        ensures
            res == (Self { min_length: Some(min), ..self }),
    {
        let mut builder = self;
        builder.min_length = Some(min);
        builder
    }

    /// Removes the lower bound.
    pub fn without_min_length(self) -> (res: Self)
        ensures
            res == (Self { min_length: None, ..self }),
    {
        let mut builder = self;
        builder.min_length = None;
        builder
    }

    /// Sets the upper bound.
    pub fn with_max_length(self, max: usize) -> (res: Self)
        ensures
            res == (Self { max_length: Some(max), ..self }),
    {
        let mut builder = self;
        builder.max_length = Some(max);
        builder
    }

    /// Removes the upper bound.
    pub fn without_max_length(self) -> (res: Self)
        ensures
            res == (Self { max_length: None, ..self }),
    {
        let mut builder = self;
        builder.max_length = None;
        builder
    }

    /// Switches the character check, and with it the substitution of
    /// characters during normalisation, on or off.
    pub fn with_char_validation(self, enabled: bool) -> (res: Self)
        ensures
            res == (Self { char_validation_enabled: enabled, ..self }),
    {
        let mut builder = self;
        builder.char_validation_enabled = enabled;
        builder
    }

    /// Switches the whitespace check, and with it the trimming during
    /// normalisation, on or off.
    pub fn with_trim_validation(self, enabled: bool) -> (res: Self)
        ensures
            res == (Self { trim_validation_enabled: enabled, ..self }),
    {
        let mut builder = self;
        builder.trim_validation_enabled = enabled;
        builder
    }
}

/// Appends `input` to `output` with its ASCII upper-case letters
/// lower-cased and every other character as it stands.
pub fn push_ascii_lowercased(input: &str, output: &mut String)
    ensures
        final(output)@ == old(output)@ + ascii_lowered(input@),
{
    assert(output@ =~= old(output)@ + ascii_lowered(input@.take(0)));
    for ch in it: input.chars()
        invariant
            it.seq() == input@,
            output@ == old(output)@ + ascii_lowered(input@.take(it.index())),
    {
        assert(old(output)@ + ascii_lowered(input@.take(it.index() + 1)) =~= (old(output)@
            + ascii_lowered(input@.take(it.index()))).push(ascii_lower(ch)));
        output.push(to_ascii_lowercase(ch));
    }
    assert(input@.take(input@.len() as int) =~= input@);
}

impl NameBulder for DefaultNameBuilder {
    type Error = NameError;

    /// The checks run in a fixed order and the first that fails is
    /// reported: boundary whitespace, then length in bytes, then characters.
    open spec fn validation(&self, input: Seq<char>) -> Result<(), NameError> {
        let len = utf8_len(input) as usize;
        if self.trim_validation_enabled && !is_trimmed(input) {
            Err(NameError::Untrimmed)
        } else if !self.length_accepted(len) {
            Err(
                NameError::InvalidLength(
                    InvalidLengthError {
                        min: self.lower_bound(),
                        max: self.upper_bound(len),
                        actual: len,
                    },
                ),
            )
        } else if self.char_validation_enabled && !all_name_safe(input) {
            Err(NameError::InvalidCharacters(InvalidCharactersError))
        } else {
            Ok(())
        }
    }

    /// Normalisation never fails. Boundary whitespace is removed where the
    /// whitespace check is on. What is left is normalised into name-safe
    /// characters where the character check is on; where it is off, ASCII
    /// letters are lower-cased and everything else is copied.
    open spec fn normalization(&self, input: Seq<char>) -> Result<Seq<char>, NameError> {
        let text = if self.trim_validation_enabled {
            trimmed(input)
        } else {
            input
        };
        if self.char_validation_enabled {
            Ok(name_from(Seq::empty(), text))
        } else {
            Ok(ascii_lowered(text))
        }
    }

    fn validate(&self, input: &str) -> (res: Result<(), NameError>) {
        if self.trim_validation_enabled && !validate_trimmed(input) {
            return Err(NameError::Untrimmed);
        }
        if self.min_length.is_some() || self.max_length.is_some() {
            let len = byte_len(input);
            let min = match self.min_length {
                Some(min) => min,
                None => 0,
            };
            let max = match self.max_length {
                Some(max) => max,
                None => len,
            };
            match validate_length(len, min, max) {
                Ok(_) => {},
                Err(error) => {
                    return Err(NameError::InvalidLength(error));
                },
            }
        }
        if self.char_validation_enabled && !validate_name_chars(input) {
            return Err(NameError::InvalidCharacters(InvalidCharactersError));
        }
        Ok(())
    }

    fn normalize(&self, input: &str) -> (res: Result<String, NameError>) {
        let input = if self.trim_validation_enabled {
            input.trim()
        } else {
            input
        };
        let mut normalized = String::new();
        if self.char_validation_enabled {
            make_name(input, &mut normalized);
        } else {
            push_ascii_lowercased(input, &mut normalized);
            assert(normalized@ =~= ascii_lowered(input@));
        }
        Ok(normalized)
    }
}

} // verus!
