//! Records of requests to the web server.
use vstd::prelude::*;
use crate::text::{str_to_uppercase, ascii_uppercase, to_uppercase};
use crate::db::clock::{new_id, now_millis};
use crate::db::traces::is_trace_instant;

verus! {

/// How a web request ended.
#[derive(PartialEq, Eq, Structural, Clone, Copy, Debug)]
pub enum RequestStatus {
    Success,
    Redirect,
    ClientError,
    ServerError,
    Unauthorized,
}

/// The database name of a request status: the variant's name in lowercase
/// (`rename_all = "lowercase"`).
pub open spec fn request_status_name(s: RequestStatus) -> Seq<char> {
    match s {
        RequestStatus::Success => "success"@,
        RequestStatus::Redirect => "redirect"@,
        RequestStatus::ClientError => "clienterror"@,
        RequestStatus::ServerError => "servererror"@,
        RequestStatus::Unauthorized => "unauthorized"@,
    }
}

impl RequestStatus {
    /// The database name of the status.
    pub fn as_str(&self) -> (r: &'static str)
        ensures
            r@ == request_status_name(*self),
    {
        match self {
            RequestStatus::Success => "success",
            RequestStatus::Redirect => "redirect",
            RequestStatus::ClientError => "clienterror",
            RequestStatus::ServerError => "servererror",
            RequestStatus::Unauthorized => "unauthorized",
        }
    }
}

/// A request to the web server as the library records it; instants are Unix
/// milliseconds and ids the 128-bit values of UUIDs.  The JSON headers and
/// bodies of a request stay with the caller.
#[derive(Clone, Debug)]
pub struct WebsiteTrace {
    pub trace_id: u128,
    pub method: String,
    pub path: String,
    pub query: Option<String>,
    pub ip_address: Option<String>,
    pub user_agent: Option<String>,
    pub user_id: Option<u128>,
    pub started_at_ms: i64,
    pub duration_ms: i64,
    pub status_code: u16,
    pub request_status: RequestStatus,
    pub error: Option<String>,
}

impl WebsiteTrace {
    /// A trace of a request that starts now: the method in uppercase, no
    /// user, no duration or status code yet, successful so far.
    pub fn start(
        method: &str,
        path: String,
        query: Option<String>,
        user_agent: Option<String>,
        ip: Option<String>,
    ) -> (t: WebsiteTrace)
        ensures
            t.method@ == str_to_uppercase(method@),
            vstd::utf8::is_ascii_chars(method@) ==> t.method@ == ascii_uppercase(method@),
            t.path == path,
            t.query == query,
            t.ip_address == ip,
            t.user_agent == user_agent,
            t.user_id.is_none(),
            is_trace_instant(t.started_at_ms),
            t.duration_ms == 0,
            t.status_code == 0,
            t.request_status == RequestStatus::Success,
            t.error.is_none(),
    {
        let trace_id = new_id();
        let started_at_ms = now_millis();
        WebsiteTrace {
            trace_id,
            method: to_uppercase(method),
            path,
            query,
            ip_address: ip,
            user_agent,
            user_id: None,
            started_at_ms,
            duration_ms: 0,
            status_code: 0,
            request_status: RequestStatus::Success,
            error: None,
        }
    }

    /// Records how the request ended; nothing else changes.
    pub fn complete(&mut self, duration_ms: i64, status_code: u16, user_id: Option<u128>)
        ensures
            final(self).duration_ms == duration_ms,
            final(self).status_code == status_code,
            final(self).user_id == user_id,
            final(self).trace_id == old(self).trace_id,
            final(self).method == old(self).method,
            final(self).path == old(self).path,
            final(self).query == old(self).query,
            final(self).ip_address == old(self).ip_address,
            final(self).user_agent == old(self).user_agent,
            final(self).started_at_ms == old(self).started_at_ms,
            final(self).request_status == old(self).request_status,
            final(self).error == old(self).error,
    {
        self.duration_ms = duration_ms;
        self.status_code = status_code;
        self.user_id = user_id;
    }
}

} // verus!
