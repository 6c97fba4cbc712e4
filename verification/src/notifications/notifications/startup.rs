//! The startup event as a value that turns itself into a notification.
use vstd::prelude::*;
use crate::notifications::Notification;

verus! {

#[derive(Clone, Copy, Debug)]
pub struct StartupNotification {
    pub started: bool,
}

impl StartupNotification {
    pub fn new(started: bool) -> (s: StartupNotification)
        ensures
            s.started == started,
    {
        StartupNotification { started }
    }

    /// The notification of this event: titled "Backend", saying "Started" or
    /// "Starting" (`Into<Notification>`).
    pub fn into(self) -> (n: Notification)
        ensures
            n.title@ == "Backend"@,
            n.message@ == (if self.started {
                "Started"@
            } else {
                "Starting"@
            }),
    {
        Notification::new("Backend", if self.started { "Started" } else { "Starting" })
    }
}

} // verus!
