//! Why a string was not accepted as a name.

use vstd::prelude::*;

use crate::validation::InvalidLengthError;

verus! {

/// The string holds a character outside `a-z`, `0-9`, `-` and `_`.
#[derive(Debug, Clone, Copy, PartialEq, Eq, Structural)]
pub struct InvalidCharactersError;

/// The one check that a string failed. Checks are not aggregated: the first
/// that fails is the one reported.
#[derive(Debug, Clone, Copy, PartialEq, Eq, Structural)]
pub enum NameError {
    /// The string starts or ends with whitespace.
    Untrimmed,
    /// The byte length of the string is outside the bounds.
    InvalidLength(InvalidLengthError),
    /// The string holds a character that is not name-safe.
    InvalidCharacters(InvalidCharactersError),
}

impl From<InvalidLengthError> for NameError {
    fn from(error: InvalidLengthError) -> (res: NameError) {
        NameError::InvalidLength(error)
    }
}

impl vstd::std_specs::convert::FromSpecImpl<InvalidLengthError> for NameError {
    open spec fn obeys_from_spec() -> bool {
        true
    }

    open spec fn from_spec(error: InvalidLengthError) -> NameError {
        NameError::InvalidLength(error)
    }
}

impl From<InvalidCharactersError> for NameError {
    fn from(error: InvalidCharactersError) -> (res: NameError) {
        NameError::InvalidCharacters(error)
    }
}

impl vstd::std_specs::convert::FromSpecImpl<InvalidCharactersError> for NameError {
    open spec fn obeys_from_spec() -> bool {
        true
    }

    open spec fn from_spec(error: InvalidCharactersError) -> NameError {
        NameError::InvalidCharacters(error)
    }
}

} // verus!
