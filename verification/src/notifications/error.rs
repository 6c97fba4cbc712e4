//! The errors a notification service reports, with a catch-all kind.
use vstd::prelude::*;
use crate::text::concat2;

verus! {

#[derive(Clone, Debug)]
pub enum NotificationError {
    InvalidConfig(String),
    Transport(String),
    Other(String),
    Auth(String),
}

/// The text that the error displays.
pub open spec fn notification_error_text(e: NotificationError) -> Seq<char> {
    match e {
        NotificationError::InvalidConfig(m) => "Invalid config: "@ + m@,
        NotificationError::Transport(m) => "Transport error: "@ + m@,
        NotificationError::Other(m) => "Other error: "@ + m@,
        NotificationError::Auth(m) => "Auth error: "@ + m@,
    }
}

impl NotificationError {
    /// The text the error displays (its `Display`).
    pub fn to_string(&self) -> (s: String)
        ensures
            s@ == notification_error_text(*self),
    {
        match self {
            NotificationError::InvalidConfig(m) => concat2("Invalid config: ", m.as_str()),
            NotificationError::Transport(m) => concat2("Transport error: ", m.as_str()),
            NotificationError::Other(m) => concat2("Other error: ", m.as_str()),
            NotificationError::Auth(m) => concat2("Auth error: ", m.as_str()),
        }
    }
}

} // verus!
