//! The notification value.

use std::time::Instant;

use vstd::prelude::*;

verus! {

/// A point on the monotonic clock. Nothing is known of its value.
#[verifier::external_type_specification]
#[verifier::external_body]
pub struct ExInstant(std::time::Instant);

/// `Instant::now` reads the monotonic clock; what it returns differs from
/// call to call, so nothing is claimed of it.
pub assume_specification[ std::time::Instant::now ]() -> (res: std::time::Instant)
;

/// How serious a notification is.
#[derive(Debug, Clone, Copy, PartialEq, Eq, Hash, Structural)]
pub enum NotificationLevel {
    Error,
    Warning,
    Success,
    Info,
    Note,
}

/// A message with its level and the moment it was created.
#[derive(Debug, PartialEq, Eq)]
pub struct Notification {
    pub level: NotificationLevel,
    pub message: String,
    pub creation_time: Instant,
}

impl Clone for Notification {
    fn clone(&self) -> (res: Self)
        ensures
            res.level == self.level,
            res.message@ == self.message@,
            res.creation_time == self.creation_time,
    {
        Notification {
            level: self.level,
            message: self.message.clone(),
            creation_time: self.creation_time,
        }
    }
}

impl Notification {
    /// A notification of the given level, created now.
    pub fn new(level: NotificationLevel, message: &str) -> (res: Self)
        ensures
            res.level == level,
            res.message@ == message@,
    {
        Self { level, message: message.to_owned(), creation_time: Instant::now() }
    }

    /// An error, created now.
    pub fn error(message: &str) -> (res: Self)
        ensures
            res.level == NotificationLevel::Error,
            res.message@ == message@,
    {
        Self::new(NotificationLevel::Error, message)
    }

    /// A warning, created now.
    pub fn warning(message: &str) -> (res: Self)
        ensures
            res.level == NotificationLevel::Warning,
            res.message@ == message@,
    {
        Self::new(NotificationLevel::Warning, message)
    }

    /// A report of success, created now.
    pub fn success(message: &str) -> (res: Self)
        ensures
            res.level == NotificationLevel::Success,
            res.message@ == message@,
    {
        Self::new(NotificationLevel::Success, message)
    }

    /// A piece of information, created now.
    pub fn info(message: &str) -> (res: Self)
        ensures
            res.level == NotificationLevel::Info,
            res.message@ == message@,
    {
        Self::new(NotificationLevel::Info, message)
    }

    /// A note, created now.
    pub fn note(message: &str) -> (res: Self)
        ensures
            res.level == NotificationLevel::Note,
            res.message@ == message@,
    {
        Self::new(NotificationLevel::Note, message)
    }
}

} // verus!
