//! The notification sent while the backend starts and once it has started.
use vstd::prelude::*;
use crate::notifications::Notification;

verus! {

#[derive(Clone, Copy, Debug)]
pub struct StartupNotification {
    pub started: bool,
}

impl StartupNotification {
    pub fn new(started: bool) -> (s: StartupNotification)
        ensures
            s.started == started,
    {
        StartupNotification { started }
    }
}

impl Notification {
    /// The notification of a startup event: titled "Backend", saying
    /// "Started" or "Starting" (`From<StartupNotification>`).
    pub fn from(value: StartupNotification) -> (n: Notification)
        ensures
            n.title@ == "Backend"@,
            n.message@ == (if value.started {
                "Started"@
            } else {
                "Starting"@
            }),
    {
        Notification::new("Backend", if value.started { "Started" } else { "Starting" })
    }
}

} // verus!
