//! Records that the backend keeps about commands, users and web requests.
pub mod clock;
pub mod command_traces;
pub mod trace_ids;
pub mod traces;
pub mod users;
pub mod website_traces;
