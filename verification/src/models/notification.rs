//! Short notices shown to the user.
use vstd::prelude::*;

verus! {

/// How a notice is shown.
#[derive(Clone, Copy, PartialEq, Eq, Structural, Debug)]
pub enum NotificationLevel {
    Info,
    Success,
    Warning,
    Error,
}

/// A notice with its level and message.
#[derive(Clone, Debug)]
pub struct Notification {
    pub level: NotificationLevel,
    pub message: String,
}

impl Notification {
    /// A notice with the given level and message.
    pub fn new(level: NotificationLevel, message: &str) -> (n: Notification)
        ensures
            n.level == level,
            n.message@ == message@,
    {
        Notification { level, message: String::from_str(message) }
    }
}

} // verus!
