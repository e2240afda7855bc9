//! What a view shows of a notification.

use vstd::prelude::*;

use crate::notification::model::{Notification, NotificationLevel};

verus! {

/// The colour variant that a level is shown in.
pub open spec fn level_variant(level: NotificationLevel) -> Seq<char> {
    match level {
        NotificationLevel::Error => "danger"@,
        NotificationLevel::Warning => "warning"@,
        NotificationLevel::Success => "success"@,
        NotificationLevel::Info => "brand"@,
        NotificationLevel::Note => "neutral"@,
    }
}

/// The icon that a level is shown with.
pub open spec fn level_icon(level: NotificationLevel) -> Seq<char> {
    match level {
        NotificationLevel::Error => "circle-exclamation"@,
        NotificationLevel::Warning => "triangle-exclamation"@,
        NotificationLevel::Success => "circle-check"@,
        NotificationLevel::Info => "circle-info"@,
        NotificationLevel::Note => "pen-to-square"@,
    }
}

/// The variant, the icon and the message that a view shows.
#[derive(Clone, Copy, Debug, Eq, PartialEq)]
pub struct NotificationViewData<'a> {
    pub variant: &'static str,
    pub icon: &'static str,
    pub message: &'a str,
}

impl<'a> NotificationViewData<'a> {
    /// `self` is what a view shows of `notification`: the variant and the
    /// icon of its level, and its message.
    pub open spec fn shows(&self, notification: &Notification) -> bool {
        &&& self.variant@ == level_variant(notification.level)
        &&& self.icon@ == level_icon(notification.level)
        &&& self.message@ == notification.message@
    }
}

impl<'a> From<&'a Notification> for NotificationViewData<'a> {
    fn from(notification: &'a Notification) -> (res: NotificationViewData<'a>)
        ensures
            res.shows(notification),
    {
        let message = notification.message.as_str();
        match notification.level {
            NotificationLevel::Error => NotificationViewData {
                variant: "danger",
                icon: "circle-exclamation",
                message,
            },
            NotificationLevel::Warning => NotificationViewData {
                variant: "warning",
                icon: "triangle-exclamation",
                message,
            },
            NotificationLevel::Success => NotificationViewData {
                variant: "success",
                icon: "circle-check",
                message,
            },
            NotificationLevel::Info => NotificationViewData {
                variant: "brand",
                icon: "circle-info",
                message,
            },
            NotificationLevel::Note => NotificationViewData {
                variant: "neutral",
                icon: "pen-to-square",
                message,
            },
        }
    }
}

impl<'a> vstd::std_specs::convert::FromSpecImpl<&'a Notification> for NotificationViewData<'a> {
    /// The conversion is described by `shows`, through the views of its
    /// strings, and not by an equation between values.
    open spec fn obeys_from_spec() -> bool {
        false
    }

    open spec fn from_spec(notification: &'a Notification) -> NotificationViewData<'a> {
        arbitrary()
    }
}

/// The notifications that a view is asked to show, in order.
#[derive(Clone, Copy, Debug)]
pub struct Notifications<'a>(pub &'a [Notification]);

impl<'a> Default for Notifications<'a> {
    /// No notifications.
    fn default() -> (res: Self)
        ensures
            res.0@.len() == 0,
    {
        let none: &'a [Notification] = &[];
        Notifications(none)
    }
}

impl<'a> Notifications<'a> {
    /// What a view shows of each notification, in the order of the
    /// notifications.
    pub fn iter(&self) -> (res: Vec<NotificationViewData<'a>>)
        ensures
            res@.len() == self.0@.len(),
            forall|i: int| 0 <= i < res@.len() ==> (#[trigger] res@[i]).shows(&self.0@[i]),
    {
        let items: &'a [Notification] = self.0;
        let mut data: Vec<NotificationViewData<'a>> = Vec::new();
        let mut i: usize = 0;
        while i < items.len()
            invariant
                items == self.0,
                i <= items@.len(),
                data@.len() == i,
                forall|j: int| 0 <= j < i ==> (#[trigger] data@[j]).shows(&items@[j]),
            decreases items@.len() - i,
        {
            data.push(NotificationViewData::from(&items[i]));
            i += 1;
        }
        data
    }
}

} // verus!
