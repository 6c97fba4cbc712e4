//! The decisions of the admin commands that show stored command traces:
//! who may use them, and what each lookup answers and records.
use vstd::prelude::*;
use crate::db::traces::{CommandStatus, CommandTrace};
use crate::db::trace_ids::{parse_uuid, uuid_parse, uuid_text, uuid_hyphenated};
use crate::text::{concat2, concat3, owned, str_eq};

verus! {

/// How a command answers.
#[derive(Clone, Debug)]
pub enum TraceReply {
    /// Reply with a text.
    Reply(String),
    /// Reply with a text, or attach it under the file name when it is too
    /// long for a message.
    ReplyOrAttach { text: String, filename: String },
}

/// The trace changes only in status, output and error.
pub open spec fn same_invocation(a: CommandTrace, b: CommandTrace) -> bool {
    &&& a.trace_id == b.trace_id
    &&& a.command == b.command
    &&& a.user_id == b.user_id
    &&& a.username == b.username
    &&& a.guild_id == b.guild_id
    &&& a.channel_id == b.channel_id
    &&& a.started_at_ms == b.started_at_ms
    &&& a.duration_ms == b.duration_ms
}

pub open spec fn has_text(o: Option<String>, s: Seq<char>) -> bool {
    o matches Some(v) && v@ == s
}

/// Deferring the answer failed: the trace records the failure.
pub fn record_defer_failure(trace: &mut CommandTrace, error_debug: &str)
    ensures
        same_invocation(*final(trace), *old(trace)),
        final(trace).status == CommandStatus::Error,
        has_text(final(trace).error, "Defer failed: "@ + error_debug@),
        final(trace).output == old(trace).output,
{
    trace.status = CommandStatus::Error;
    trace.error = Some(concat2("Defer failed: ", error_debug));
}

/// Only the configured admin may look at traces.  For anyone else the trace
/// records the refusal and the answer is returned; `latest` selects the
/// wording of `/get_latest_trace`.
pub fn deny_unless_admin(
    trace: &mut CommandTrace,
    author_id: &str,
    admin_id: &str,
    latest: bool,
) -> (r: Option<String>)
    ensures
        same_invocation(*final(trace), *old(trace)),
        author_id@ == admin_id@ ==> r is None && *final(trace) == *old(trace),
        author_id@ != admin_id@ ==> {
            &&& final(trace).status == CommandStatus::Disabled
            &&& final(trace).error == old(trace).error
            &&& if latest {
                &&& has_text(final(trace).output, "Not allowed"@)
                &&& r matches Some(m) && m@ == "You are not allowed to use this command"@
            } else {
                &&& has_text(final(trace).output, "You are not allowed to use this command!"@)
                &&& r matches Some(m) && m@ == "You are not allowed to use this command!"@
            }
        },
{
    if str_eq(author_id, admin_id) {
        return None;
    }
    trace.status = CommandStatus::Disabled;
    if latest {
        trace.output = Some(owned("Not allowed"));
        Some(owned("You are not allowed to use this command"))
    } else {
        trace.output = Some(owned("You are not allowed to use this command!"));
        Some(owned("You are not allowed to use this command!"))
    }
}

/// Reads the trace id given to `/get_trace`; for text that is no UUID the
/// trace records the error and the answer is returned.
pub fn read_trace_id(trace: &mut CommandTrace, trace_id: &str) -> (r: Result<u128, String>)
    ensures
        same_invocation(*final(trace), *old(trace)),
        match uuid_parse(trace_id@) {
            Ok(v) => r == Ok::<u128, String>(v) && *final(trace) == *old(trace),
            Err((dbg, _)) => {
                &&& final(trace).status == CommandStatus::Error
                &&& has_text(final(trace).error, "Invalid UUID: "@ + dbg)
                &&& has_text(final(trace).output, "Invalid trace ID format"@)
                &&& r matches Err(m) && m@ == "Invalid trace ID format (must be a valid UUID)"@
            },
        },
{
    match parse_uuid(trace_id) {
        Ok(v) => Ok(v),
        Err((dbg, _)) => {
            trace.status = CommandStatus::Error;
            trace.error = Some(concat2("Invalid UUID: ", dbg.as_str()));
            trace.output = Some(owned("Invalid trace ID format"));
            Err(owned("Invalid trace ID format (must be a valid UUID)"))
        },
    }
}

/// What a lookup in the trace table brought.
#[derive(Clone, Debug)]
pub enum TraceLookup {
    /// A trace was found; the text shows it.
    Found(String),
    NotFound,
    /// The database failed; the text is the error's debug form.
    Failed(String),
}

/// Records the lookup of the trace with id `uuid` for `/get_trace`, given the
/// debug text of the time it took, and tells the answer.
pub fn record_trace_lookup(
    trace: &mut CommandTrace,
    uuid: u128,
    lookup: TraceLookup,
    elapsed_debug: &str,
) -> (r: TraceReply)
    ensures
        same_invocation(*final(trace), *old(trace)),
        match lookup {
            TraceLookup::Found(text) => {
                &&& final(trace).status == old(trace).status
                &&& final(trace).error == old(trace).error
                &&& has_text(final(trace).output, "Trace fetched in "@ + elapsed_debug@)
                &&& r matches TraceReply::ReplyOrAttach { text: t, filename } && t == text
                    && filename@ == "trace.txt"@
            },
            TraceLookup::NotFound => {
                &&& final(trace).status == old(trace).status
                &&& final(trace).error == old(trace).error
                &&& has_text(final(trace).output, "No trace found"@)
                &&& r matches TraceReply::Reply(m) && m@ == "No trace found for ID: `"@
                    + uuid_hyphenated(uuid) + "`"@
            },
            TraceLookup::Failed(dbg) => {
                &&& final(trace).status == CommandStatus::Error
                &&& has_text(final(trace).error, "DB error: "@ + dbg@)
                &&& has_text(
                    final(trace).output,
                    "Failed to fetch trace `"@ + uuid_hyphenated(uuid) + "`"@,
                )
                &&& r matches TraceReply::Reply(m) && m@ == "Failed to fetch trace `"@
                    + uuid_hyphenated(uuid) + "`: database error"@
            },
        },
{
    match lookup {
        TraceLookup::Found(text) => {
            trace.output = Some(concat2("Trace fetched in ", elapsed_debug));
            TraceReply::ReplyOrAttach { text, filename: owned("trace.txt") }
        },
        TraceLookup::NotFound => {
            trace.output = Some(owned("No trace found"));
            let id = uuid_text(uuid);
            TraceReply::Reply(concat3("No trace found for ID: `", id.as_str(), "`"))
        },
        TraceLookup::Failed(dbg) => {
            trace.status = CommandStatus::Error;
            trace.error = Some(concat2("DB error: ", dbg.as_str()));
            let id = uuid_text(uuid);
            trace.output = Some(concat3("Failed to fetch trace `", id.as_str(), "`"));
            TraceReply::Reply(concat3("Failed to fetch trace `", id.as_str(), "`: database error"))
        },
    }
}

/// Records the lookup of the latest trace for `/get_latest_trace`, given
/// the debug text of the time it took, and tells the answer.
pub fn record_latest_trace_lookup(
    trace: &mut CommandTrace,
    lookup: TraceLookup,
    elapsed_debug: &str,
) -> (r: TraceReply)
    ensures
        same_invocation(*final(trace), *old(trace)),
        match lookup {
            TraceLookup::Found(text) => {
                &&& final(trace).status == old(trace).status
                &&& final(trace).error == old(trace).error
                &&& has_text(final(trace).output, "Latest Trace fetched in "@ + elapsed_debug@)
                &&& r matches TraceReply::ReplyOrAttach { text: t, filename } && t == text
                    && filename@ == "latest_trace.txt"@
            },
            TraceLookup::NotFound => {
                &&& final(trace).status == old(trace).status
                &&& final(trace).error == old(trace).error
                &&& has_text(final(trace).output, "No traces found"@)
                &&& r matches TraceReply::Reply(m) && m@ == "No traces found"@
            },
            TraceLookup::Failed(dbg) => {
                &&& final(trace).status == CommandStatus::Error
                &&& final(trace).error == Some(dbg)
                &&& has_text(final(trace).output, "DB error"@)
                &&& r matches TraceReply::Reply(m) && m@ == "Failed to fetch latest trace"@
            },
        },
{
    match lookup {
        TraceLookup::Found(text) => {
            trace.output = Some(concat2("Latest Trace fetched in ", elapsed_debug));
            TraceReply::ReplyOrAttach { text, filename: owned("latest_trace.txt") }
        },
        TraceLookup::NotFound => {
            trace.output = Some(owned("No traces found"));
            TraceReply::Reply(owned("No traces found"))
        },
        TraceLookup::Failed(dbg) => {
            trace.status = CommandStatus::Error;
            trace.error = Some(dbg);
            trace.output = Some(owned("DB error"));
            TraceReply::Reply(owned("Failed to fetch latest trace"))
        },
    }
}

} // verus!
