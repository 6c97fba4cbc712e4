//! Notifications posted to a Gotify server.
use vstd::prelude::*;
use crate::notifications::{Notifier, NotificationError};
use crate::text::owned;

verus! {

#[derive(Clone, Debug)]
pub struct GotifyNotifier {
    pub url: String,
}

impl GotifyNotifier {
    pub fn new(url: String) -> (n: GotifyNotifier)
        ensures
            n.url == url,
    {
        GotifyNotifier { url }
    }
}

impl Notifier for GotifyNotifier {
    fn name(&self) -> (r: &'static str)
        ensures
            r@ == "Gotify"@,
    {
        "Gotify"
    }
}

/// A successful HTTP status (2xx).
pub open spec fn is_success_status(status: u16) -> bool {
    200 <= status <= 299
}

/// What Gotify's answer means: delivered for a successful status; for any
/// other, the error carries `(<status>): <body>`, as an authentication error
/// for 401 and 403, a configuration error for 400, and a transport error
/// otherwise.
pub fn gotify_outcome(status: u16, status_text: &str, body: &str) -> (r: Result<(), NotificationError>)
    ensures
        is_success_status(status) ==> r is Ok,
        !is_success_status(status) ==> (r matches Err(e) && {
            let msg = "("@ + status_text@ + "): "@ + body@;
            &&& (status == 401 || status == 403) ==> (e matches NotificationError::Auth(m) && m@
                == msg)
            &&& status == 400 ==> (e matches NotificationError::InvalidConfig(m) && m@ == msg)
            &&& (status != 401 && status != 403 && status != 400) ==> (
            e matches NotificationError::Transport(m) && m@ == msg)
        }),
{
    if 200 <= status && status <= 299 {
        return Ok(());
    }
    let mut msg = owned("(");
    msg.append(status_text);
    msg.append("): ");
    msg.append(body);
    if status == 401 || status == 403 {
        Err(NotificationError::Auth(msg))
    } else if status == 400 {
        Err(NotificationError::InvalidConfig(msg))
    } else {
        Err(NotificationError::Transport(msg))
    }
}

} // verus!
