//! The decisions of the Discord bot: how answers are sent, when a failed
//! start is retried, and what each command answers.
pub mod cataas;
pub mod extract_time;
pub mod guild_info;
pub mod traces;
pub mod translator;
pub mod version;
pub mod wolframalpha;

use vstd::prelude::*;
use crate::notifications::Notification;
use crate::num::{decimal_spec, write_decimal};
use crate::text::{char_count, owned};

verus! {

/// Discord's limit on the characters of one message.
pub const MAX_MSG_LENGTH: usize = 2000;

/// A text fits into one message when it has at most `MAX_MSG_LENGTH`
/// characters; a longer one is sent as an attached file.
pub fn fits_in_message(text: &str) -> (r: bool)
    ensures
        r == (text@.len() <= MAX_MSG_LENGTH),
{
    char_count(text) <= MAX_MSG_LENGTH
}

/// A failure that comes later than this after the previous one starts a new
/// streak of retries (five minutes, in milliseconds).
pub const RETRY_WINDOW_MS: u64 = 300_000;

/// The bot is given up after this many failures in one streak.
pub const MAX_RETRIES: u64 = 5;

/// The retry bookkeeping of the bot's start: failures in the current streak
/// and the instant (milliseconds on a monotonic clock) of the last one.
#[derive(Clone, Copy, Debug)]
pub struct RetryState {
    pub retries: u64,
    pub last_failure_ms: Option<u64>,
}

/// What to do after a failed start: wait before the next attempt, or stop.
#[derive(Clone, Copy, Debug, PartialEq, Eq, Structural)]
pub enum RetryNext {
    SleepSecs(u64),
    Stop,
}

/// The notifications to send after a failure, and what follows.
#[derive(Clone, Debug)]
pub struct RetryAction {
    pub notifications: Vec<Notification>,
    pub next: RetryNext,
}

impl RetryState {
    pub open spec fn wf(self) -> bool {
        self.retries < MAX_RETRIES
    }

    /// No failure yet.
    pub fn new() -> (s: RetryState)
        ensures
            s.retries == 0,
            s.last_failure_ms.is_none(),
            s.wf(),
    {
        RetryState { retries: 0, last_failure_ms: None }
    }
}

/// The time between two instants, zero when the second is the earlier one
/// (`Instant::duration_since`).
pub open spec fn elapsed(last: u64, now: u64) -> int {
    if now >= last {
        now - last
    } else {
        0
    }
}

/// The failures counted once a failure at `now` happened.
pub open spec fn retries_after(s: RetryState, now: u64) -> u64 {
    let base: int = match s.last_failure_ms {
        Some(last) => if elapsed(last, now) > RETRY_WINDOW_MS {
            0
        } else {
            s.retries as int
        },
        None => s.retries as int,
    };
    (base + 1) as u64
}

pub open spec fn attempt_message(retries: u64, error: Seq<char>) -> Seq<char> {
    "attempt "@ + decimal_spec(retries as nat) + ": "@ + error
}

pub open spec fn disabling_message(retries: u64, error: Seq<char>) -> Seq<char> {
    "due to error: "@ + error + " on retry "@ + decimal_spec(retries as nat)
}

/// Handles a failed start of the bot at `now_ms` with the given error text:
/// a failure more than five minutes after the previous one starts a new
/// streak; every failure is reported; the fifth failure of a streak also
/// reports that the bot is disabled and stops, any other waits five seconds
/// per failure of the streak.
pub fn on_start_failure(state: &mut RetryState, now_ms: u64, error: &str) -> (a: RetryAction)
    requires
        old(state).wf(),
    ensures
        final(state).retries == retries_after(*old(state), now_ms),
        final(state).last_failure_ms == Some(now_ms),
        1 <= final(state).retries <= MAX_RETRIES,
        final(state).retries == MAX_RETRIES ==> a.next == RetryNext::Stop,
        final(state).retries < MAX_RETRIES ==> a.next == RetryNext::SleepSecs(
            (5 * final(state).retries) as u64,
        ),
        final(state).retries < MAX_RETRIES ==> final(state).wf(),
        a.notifications@.len() == (if final(state).retries == MAX_RETRIES {
            2int
        } else {
            1int
        }),
        a.notifications@[0].title@ == "Discord Bot Critical Failure"@,
        a.notifications@[0].message@ == attempt_message(final(state).retries, error@),
        final(state).retries == MAX_RETRIES ==> a.notifications@[1].title@
            == "Disabling discord bot"@,
        final(state).retries == MAX_RETRIES ==> a.notifications@[1].message@ == disabling_message(
            final(state).retries,
            error@,
        ),
{
    match state.last_failure_ms {
        Some(last) => {
            let since: u64 = if now_ms >= last {
                now_ms - last
            } else {
                0
            };
            if since > RETRY_WINDOW_MS {
                state.retries = 0;
            }
        },
        None => {},
    }
    state.last_failure_ms = Some(now_ms);
    state.retries = state.retries + 1;
    let retries = state.retries;

    let mut notifications: Vec<Notification> = Vec::new();
    let mut msg = owned("attempt ");
    write_decimal(&mut msg, retries);
    msg.append(": ");
    msg.append(error);
    notifications.push(Notification::new("Discord Bot Critical Failure", msg.as_str()));

    if retries >= MAX_RETRIES {
        let mut msg2 = owned("due to error: ");
        msg2.append(error);
        msg2.append(" on retry ");
        write_decimal(&mut msg2, retries);
        notifications.push(Notification::new("Disabling discord bot", msg2.as_str()));
        RetryAction { notifications, next: RetryNext::Stop }
    } else {
        RetryAction { notifications, next: RetryNext::SleepSecs(5 * retries) }
    }
}

/// The streak count after failures at the instants `times`, from a fresh
/// start.
pub open spec fn retries_after_all(times: Seq<u64>) -> RetryState
    decreases times.len(),
{
    if times.len() == 0 {
        RetryState { retries: 0, last_failure_ms: None }
    } else {
        let s = retries_after_all(times.drop_last());
        RetryState { retries: retries_after(s, times.last()), last_failure_ms: Some(times.last()) }
    }
}

/// Failures that follow each other within five minutes form one streak:
/// after `n` of them (from a fresh start) the count is `n`, so the bot waits
/// 5, 10, 15 and 20 seconds and gives up at the fifth.
pub proof fn lemma_streak_counts(times: Seq<u64>)
    requires
        times.len() <= MAX_RETRIES,
        forall|i: int| 0 < i < times.len() ==> #[trigger] elapsed(times[i - 1], times[i]) <= RETRY_WINDOW_MS,
    ensures
        retries_after_all(times).retries == times.len(),
    decreases times.len(),
{
    if times.len() > 0 {
        let t = times.drop_last();
        assert forall|i: int| 0 < i < t.len() implies #[trigger] elapsed(t[i - 1], t[i]) <= RETRY_WINDOW_MS by {
            assert(t[i] == times[i] && t[i - 1] == times[i - 1]);
        }
        lemma_streak_counts(t);
        if t.len() > 0 {
            assert(retries_after_all(t).last_failure_ms == Some(t.last()));
            assert(t.last() == times[times.len() - 2]);
        }
    }
}

/// A failure more than five minutes after the previous one starts a new
/// streak, whatever the count was.
pub proof fn lemma_streak_resets(s: RetryState, now: u64)
    requires
        s.last_failure_ms matches Some(last) && elapsed(last, now) > RETRY_WINDOW_MS,
    ensures
        retries_after(s, now) == 1,
{
}

} // verus!
