//! The names and values of the backend's Prometheus metrics.
use vstd::prelude::*;
use crate::text::{concat2, owned};

verus! {

/// The prefix of every metric name.
pub const BASE: &'static str = "kybe_backend_";

/// The label of the Last.fm fetch counter: the HTTP status of a fetch.
#[derive(PartialEq, Eq, Structural, Clone, Copy, Debug)]
pub struct StatusLabel {
    pub status: u16,
}

/// The full name of a metric.
pub fn metric_name(suffix: &str) -> (s: String)
    ensures
        s@ == BASE@ + suffix@,
{
    concat2(BASE, suffix)
}

/// The names and help texts of the custom metrics, in the order they are
/// registered: uptime, Last.fm fetch duration, fetch status, listening
/// state and time of the last sync.
pub open spec fn custom_metrics_spec() -> Seq<(Seq<char>, Seq<char>)> {
    seq![
        (BASE@ + "uptime_seconds"@, "Application uptime in seconds"@),
        (BASE@ + "lastfm_fetch_duration"@, "Last.fm Fetch Duration"@),
        (BASE@ + "lastfm_fetch_status"@, "Last.fm Fetch Status Code"@),
        (BASE@ + "lastfm_listening_state"@, "Last.fm Listening State: 1 = listening, 0 = not"@),
        (
            BASE@ + "lastfm_fetch_timestamp"@,
            "Unix timestamp of the last Last.fm sync event (seconds since epoch)"@,
        ),
    ]
}

/// The names and help texts that `register_custom_metrics` registers.
pub fn custom_metrics() -> (r: Vec<(String, String)>)
    ensures
        r@.len() == custom_metrics_spec().len(),
        forall|i: int|
            0 <= i < r@.len() ==> (#[trigger] r@[i]).0@ == custom_metrics_spec()[i].0 && r@[i].1@
                == custom_metrics_spec()[i].1,
{
    let mut r: Vec<(String, String)> = Vec::new();
    r.push((metric_name("uptime_seconds"), owned("Application uptime in seconds")));
    r.push((metric_name("lastfm_fetch_duration"), owned("Last.fm Fetch Duration")));
    r.push((metric_name("lastfm_fetch_status"), owned("Last.fm Fetch Status Code")));
    r.push(
        (
            metric_name("lastfm_listening_state"),
            owned("Last.fm Listening State: 1 = listening, 0 = not"),
        ),
    );
    r.push(
        (
            metric_name("lastfm_fetch_timestamp"),
            owned("Unix timestamp of the last Last.fm sync event (seconds since epoch)"),
        ),
    );
    r
}

/// The value of the listening-state gauge: 1 while listening, 0 otherwise.
pub fn listening_state_value(is_listening: bool) -> (v: i64)
    ensures
        v == (if is_listening {
            1i64
        } else {
            0i64
        }),
{
    if is_listening {
        1
    } else {
        0
    }
}

/// The label that counts a fetch with the given HTTP status.
pub fn status_label(status: u16) -> (l: StatusLabel)
    ensures
        l.status == status,
{
    StatusLabel { status }
}

} // verus!
