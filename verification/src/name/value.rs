//! The validated value.

use vstd::prelude::*;

verus! {

/// A name: a string that a builder accepted.
///
/// The type carries no rules of its own. Which rules a name satisfies is
/// decided by the builder that made it; two names compare by their strings
/// only. Ordering and hashing are those of the underlying string.
#[derive(Debug, PartialOrd, Ord, Hash)]
pub struct Name(String);

impl View for Name {
    type V = Seq<char>;

    closed spec fn view(&self) -> Seq<char> {
        self.0@
    }
}

impl Name {
    /// Wraps `name` as it is, without checking anything.
    pub fn from_raw(name: String) -> (res: Self)
        ensures
            res@ == name@,
    {
        Self(name)
    }

    /// The name as a string slice.
    pub fn as_str(&self) -> (res: &str)
        ensures
            res@ == self@,
    {
        self.0.as_str()
    }

    /// Unwraps the name into its string.
    pub fn into_string(self) -> (res: String)
        ensures
            res@ == self@,
    {
        self.0
    }
}

impl Clone for Name {
    fn clone(&self) -> (res: Self)
        ensures
            res@ == self@,
    {
        Name(self.0.clone())
    }
}

impl PartialEq for Name {
    fn eq(&self, other: &Self) -> (res: bool) {
        self.0 == other.0
    }
}

impl vstd::std_specs::cmp::PartialEqSpecImpl for Name {
    open spec fn obeys_eq_spec() -> bool {
        true
    }

    open spec fn eq_spec(&self, other: &Self) -> bool {
        self@ == other@
    }
}

impl Eq for Name {

}

impl From<Name> for String {
    fn from(name: Name) -> (res: String)
        ensures
            res@ == name@,
    {
        name.0
    }
}

impl vstd::std_specs::convert::FromSpecImpl<Name> for String {
    open spec fn obeys_from_spec() -> bool {
        true
    }

    closed spec fn from_spec(name: Name) -> String {
        name.0
    }
}

impl AsRef<str> for Name {
    fn as_ref(&self) -> (res: &str)
        ensures
            res@ == self@,
    {
        self.as_str()
    }
}

} // verus!
