//! The settings of an animation that wraps a fragment of markup.

use std::borrow::Cow;

use vstd::prelude::*;

verus! {

/// `Cow::clone` returns a value that holds the same text: the same borrow,
/// or a copy of the owned string.
#[verifier::external_body]
pub(crate) fn clone_text(text: &Cow<'static, str>) -> (res: Cow<'static, str>)
    ensures
        res@ == text@,
{
    text.clone()
}

/// An animation: its name, how long one run takes, and how often it runs.
#[derive(Debug, PartialEq, Eq)]
pub struct Animation {
    pub name: Cow<'static, str>,
    pub duration: usize,
    pub iterations: usize,
}

impl Clone for Animation {
    fn clone(&self) -> (res: Self)
        ensures
            res.name@ == self.name@,
            res.duration == self.duration,
            res.iterations == self.iterations,
    {
        Animation {
            name: clone_text(&self.name),
            duration: self.duration,
            iterations: self.iterations,
        }
    }
}

impl Default for Animation {
    /// The animation with an empty name that lasts no time and never runs.
    fn default() -> (res: Self)
        ensures
            res.name@ == Seq::<char>::empty(),
            res.duration == 0,
            res.iterations == 0,
    {
        Animation { name: Cow::Owned(String::new()), duration: 0, iterations: 0 }
    }
}

impl Animation {
    /// An animation with the given settings.
    pub fn new(name: Cow<'static, str>, duration: usize, iterations: usize) -> (res: Self)
        ensures
            res == (Animation { name, duration, iterations }),
    {
        Self { name, duration, iterations }
    }

    /// Replaces the name.
    pub fn with_name(self, name: Cow<'static, str>) -> (res: Self)
        ensures
            res == (Animation { name, ..self }),
    {
        let mut animation = self;
        animation.name = name;
        animation
    }

    /// Replaces the duration.
    pub fn with_duration(self, duration: usize) -> (res: Self)
        ensures
            res == (Animation { duration, ..self }),
    {
        let mut animation = self;
        animation.duration = duration;
        animation
    }

    /// Replaces the number of iterations.
    pub fn with_iterations(self, iterations: usize) -> (res: Self)
        ensures
            res == (Animation { iterations, ..self }),
    {
        let mut animation = self;
        animation.iterations = iterations;
        animation
    }
}

} // verus!
