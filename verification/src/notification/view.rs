//! The settings of the view that shows notifications.

use std::borrow::Cow;

use vstd::prelude::*;

use crate::animation::{clone_text, Animation};

verus! {

/// How notifications are shown: with or without an animation around each,
/// with or without a script inside each.
#[derive(Debug, PartialEq, Eq)]
pub struct NotificationView {
    pub animation: Option<Animation>,
    pub callout_script: Option<Cow<'static, str>>,
}

impl Clone for NotificationView {
    fn clone(&self) -> (res: Self)
        ensures
            res.animation is Some == self.animation is Some,
            res.animation matches Some(animation) ==> animation.name@
                == self.animation->Some_0.name@ && animation.duration
                == self.animation->Some_0.duration && animation.iterations
                == self.animation->Some_0.iterations,
            res.callout_script is Some == self.callout_script is Some,
            res.callout_script matches Some(script) ==> script@ == self.callout_script->Some_0@,
    {
        NotificationView {
            animation: match &self.animation {
                Some(animation) => Some(animation.clone()),
                None => None,
            },
            callout_script: match &self.callout_script {
                Some(script) => Some(clone_text(script)),
                None => None,
            },
        }
    }
}

impl Default for NotificationView {
    /// A view without animation and without script.
    fn default() -> (res: Self)
        ensures
            res.animation is None,
            res.callout_script is None,
    {
        NotificationView { animation: None, callout_script: None }
    }
}

impl NotificationView {
    /// The usual view: each notification zooms out once, in half a second,
    /// and carries the script that closes it.
    pub fn new() -> (res: Self)
        ensures
            res.animation matches Some(animation) && animation.name@ == "zoomOut"@
                && animation.duration == 500 && animation.iterations == 1,
            res.callout_script matches Some(script) && script@ == "close_callout()"@,
    {
        Self {
            animation: Some(
                Animation { name: Cow::Borrowed("zoomOut"), duration: 500, iterations: 1 },
            ),
            callout_script: Some(Cow::Borrowed("close_callout()")),
        }
    }

    /// Sets the animation.
    pub fn with_animation(self, animation: Animation) -> (res: Self)
        ensures
            res == (NotificationView { animation: Some(animation), ..self }),
    {
        let mut view = self;
        view.animation = Some(animation);
        view
    }

    /// Removes the animation.
    pub fn without_animation(self) -> (res: Self)
        ensures
            res == (NotificationView { animation: None, ..self }),
    {
        let mut view = self;
        view.animation = None;
        view
    }

    /// Sets the script.
    pub fn with_callout_script(self, script: Cow<'static, str>) -> (res: Self)
        ensures
            res == (NotificationView { callout_script: Some(script), ..self }),
    {
        let mut view = self;
        view.callout_script = Some(script);
        view
    }

    /// Removes the script.
    pub fn without_callout_script(self) -> (res: Self)
        ensures
            res == (NotificationView { callout_script: None, ..self }),
    {
        let mut view = self;
        view.callout_script = None;
        view
    }
}

} // verus!
