//! Records of Discord command invocations and their status.
use vstd::prelude::*;
use vstd::string::*;
use crate::text::{str_to_lowercase, ascii_lowercase, to_lowercase, concat2};

verus! {

/// How a command invocation ended.
#[derive(PartialEq, Eq, Structural, Clone, Copy, Debug)]
pub enum CommandStatus {
    Success,
    Error,
    Disabled,
    Unauthorized,
}

/// The lowercase database name of a status.
pub open spec fn command_status_name(s: CommandStatus) -> Seq<char> {
    match s {
        CommandStatus::Success => "success"@,
        CommandStatus::Error => "error"@,
        CommandStatus::Disabled => "disabled"@,
        CommandStatus::Unauthorized => "unauthorized"@,
    }
}

/// The status that an already lowercased name denotes, or the error text.
pub open spec fn command_status_from_lower(lower: Seq<char>) -> Result<CommandStatus, Seq<char>> {
    if lower == "success"@ {
        Ok(CommandStatus::Success)
    } else if lower == "error"@ {
        Ok(CommandStatus::Error)
    } else if lower == "disabled"@ {
        Ok(CommandStatus::Disabled)
    } else if lower == "unauthorized"@ {
        Ok(CommandStatus::Unauthorized)
    } else {
        Err("Invalid command status: "@ + lower)
    }
}

/// `try_from` on a name: its lowercase form decides.
pub open spec fn command_status_parse(s: Seq<char>) -> Result<CommandStatus, Seq<char>> {
    command_status_from_lower(str_to_lowercase(s))
}

impl CommandStatus {
    pub fn as_str(&self) -> (r: &'static str)
        ensures
            r@ == command_status_name(*self),
    {
        match self {
            CommandStatus::Success => "success",
            CommandStatus::Error => "error",
            CommandStatus::Disabled => "disabled",
            CommandStatus::Unauthorized => "unauthorized",
        }
    }
}

/// Reads an already lowercased status name.
pub fn command_status_from_lowercase(lower: &str) -> (r: Result<CommandStatus, String>)
    ensures
        match (r, command_status_from_lower(lower@)) {
            (Ok(a), Ok(b)) => a == b,
            (Err(e), Err(m)) => e@ == m,
            _ => false,
        },
{
    if crate::text::str_eq(lower, "success") {
        Ok(CommandStatus::Success)
    } else if crate::text::str_eq(lower, "error") {
        Ok(CommandStatus::Error)
    } else if crate::text::str_eq(lower, "disabled") {
        Ok(CommandStatus::Disabled)
    } else if crate::text::str_eq(lower, "unauthorized") {
        Ok(CommandStatus::Unauthorized)
    } else {
        Err(concat2("Invalid command status: ", lower))
    }
}

impl CommandStatus {
    /// Reads a status name in any letter case (`TryFrom<&str>`).
    pub fn try_from(s: &str) -> (r: Result<CommandStatus, String>)
        ensures
            match (r, command_status_parse(s@)) {
                (Ok(a), Ok(b)) => a == b,
                (Err(e), Err(m)) => e@ == m,
                _ => false,
            },
            vstd::utf8::is_ascii_chars(s@) ==> match (
                r,
                command_status_from_lower(ascii_lowercase(s@)),
            ) {
                (Ok(a), Ok(b)) => a == b,
                (Err(e), Err(m)) => e@ == m,
                _ => false,
            },
    {
        let lower = to_lowercase(s);
        command_status_from_lowercase(lower.as_str())
    }
}

/// Every status name is written in lowercase ASCII letters.
pub proof fn lemma_command_status_name_lowercase(s: CommandStatus)
    ensures
        vstd::utf8::is_ascii_chars(command_status_name(s)),
        ascii_lowercase(command_status_name(s)) == command_status_name(s),
{
    reveal_strlit("success");
    reveal_strlit("error");
    reveal_strlit("disabled");
    reveal_strlit("unauthorized");
    assert(ascii_lowercase(command_status_name(s)) =~= command_status_name(s));
}

/// Reading the name of a status, written in any ASCII letter case, gives the
/// status back; together with the contract of `try_from` on ASCII input this
/// is `CommandStatus::try_from(s.as_str()) == Ok(s)`.
pub proof fn lemma_command_status_roundtrip(s: CommandStatus, t: Seq<char>)
    requires
        ascii_lowercase(t) == command_status_name(s),
    ensures
        command_status_from_lower(ascii_lowercase(t)) == Ok::<CommandStatus, Seq<char>>(s),
        command_status_from_lower(ascii_lowercase(command_status_name(s)))
            == Ok::<CommandStatus, Seq<char>>(s),
{
    reveal_strlit("success");
    reveal_strlit("error");
    reveal_strlit("disabled");
    reveal_strlit("unauthorized");
    lemma_command_status_name_lowercase(s);
}

/// A command invocation as the library reads and updates it: who ran which
/// command where, when it started (Unix milliseconds), and how it ended.  The
/// free-form JSON input and data of a trace stay with the caller.
#[derive(Clone, Debug)]
pub struct CommandTrace {
    pub trace_id: u128,
    pub command: String,
    pub user_id: i64,
    pub username: String,
    pub guild_id: Option<i64>,
    pub channel_id: i64,
    pub started_at_ms: i64,
    pub duration_ms: i64,
    pub status: CommandStatus,
    pub output: Option<String>,
    pub error: Option<String>,
}

/// Discord ids are stored in signed 64-bit columns: the bits are kept.
pub open spec fn id_as_i64(id: u64) -> i64 {
    id as i64
}

/// The lowest and highest instants (Unix milliseconds) a trace can hold.
pub open spec fn is_trace_instant(ms: i64) -> bool {
    -0x3fff_ffff_ffff_ffff <= ms <= 0x3fff_ffff_ffff_ffff
}

impl CommandTrace {
    /// A fresh trace of a command that starts now: successful so far, no
    /// output, no error, no duration.
    pub fn start(
        command_name: String,
        user_id: u64,
        username: String,
        guild_id: Option<u64>,
        channel_id: u64,
    ) -> (t: CommandTrace)
        ensures
            t.command == command_name,
            t.user_id == id_as_i64(user_id),
            t.username == username,
            t.guild_id == (match guild_id {
                Some(g) => Some(id_as_i64(g)),
                None => None,
            }),
            t.channel_id == id_as_i64(channel_id),
            is_trace_instant(t.started_at_ms),
            t.duration_ms == 0,
            t.status == CommandStatus::Success,
            t.output.is_none(),
            t.error.is_none(),
    {
        let trace_id = crate::db::clock::new_id();
        let started_at_ms = crate::db::clock::now_millis();
        CommandTrace {
            trace_id,
            command: command_name,
            user_id: user_id as i64,
            username,
            guild_id: match guild_id {
                Some(g) => Some(g as i64),
                None => None,
            },
            channel_id: channel_id as i64,
            started_at_ms,
            duration_ms: 0,
            status: CommandStatus::Success,
            output: None,
            error: None,
        }
    }

    /// Records the duration up to `now_ms`; the result tells whether the
    /// command finished with an error (and is logged as one).
    pub fn finish(&mut self, now_ms: i64) -> (failed: bool)
        requires
            is_trace_instant(old(self).started_at_ms),
            is_trace_instant(now_ms),
        ensures
            final(self).duration_ms == now_ms - old(self).started_at_ms,
            failed == (old(self).status == CommandStatus::Error),
            final(self).trace_id == old(self).trace_id,
            final(self).command == old(self).command,
            final(self).user_id == old(self).user_id,
            final(self).username == old(self).username,
            final(self).guild_id == old(self).guild_id,
            final(self).channel_id == old(self).channel_id,
            final(self).started_at_ms == old(self).started_at_ms,
            final(self).status == old(self).status,
            final(self).output == old(self).output,
            final(self).error == old(self).error,
    {
        self.duration_ms = now_ms - self.started_at_ms;
        self.status == CommandStatus::Error
    }
}

/// A `command_traces` row as the database returns it, with the status as
/// text.
#[derive(Clone, Debug)]
pub struct CommandTraceRow {
    pub trace_id: u128,
    pub command: String,
    pub user_id: i64,
    pub username: String,
    pub guild_id: Option<i64>,
    pub channel_id: i64,
    pub started_at_ms: i64,
    pub duration_ms: i64,
    pub status: String,
    pub output: Option<String>,
    pub error: Option<String>,
}

/// The status a stored row denotes: its name in any letter case, and
/// `Error` for text that names no status.
pub open spec fn row_status(s: Seq<char>) -> CommandStatus {
    match command_status_parse(s) {
        Ok(st) => st,
        Err(_) => CommandStatus::Error,
    }
}

impl CommandTrace {
    /// The trace a database row describes (`From<CommandTraceRow>`).
    pub fn from(row: CommandTraceRow) -> (t: CommandTrace)
        ensures
            t.trace_id == row.trace_id,
            t.command == row.command,
            t.user_id == row.user_id,
            t.username == row.username,
            t.guild_id == row.guild_id,
            t.channel_id == row.channel_id,
            t.started_at_ms == row.started_at_ms,
            t.duration_ms == row.duration_ms,
            t.status == row_status(row.status@),
            t.output == row.output,
            t.error == row.error,
    {
        let status = match CommandStatus::try_from(row.status.as_str()) {
            Ok(s) => s,
            Err(_) => CommandStatus::Error,
        };
        CommandTrace {
            trace_id: row.trace_id,
            command: row.command,
            user_id: row.user_id,
            username: row.username,
            guild_id: row.guild_id,
            channel_id: row.channel_id,
            started_at_ms: row.started_at_ms,
            duration_ms: row.duration_ms,
            status,
            output: row.output,
            error: row.error,
        }
    }
}

} // verus!
