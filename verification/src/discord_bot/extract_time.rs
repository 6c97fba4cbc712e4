//! `/extract_time`: the instant a Discord id (a "snowflake") was made.
use vstd::prelude::*;
use crate::num::{parse_u64, parse_u64_spec, parse_int_error_debug, parse_int_error_debug_spec};
use crate::text::concat2;

verus! {

/// The first instant of 2015 in Unix milliseconds, where Discord's clock
/// starts.
pub const DISCORD_EPOCH: u64 = 1_420_070_400_000;

/// The Unix milliseconds a snowflake was made at: its bits above the lowest
/// 22 count milliseconds since the Discord epoch.
pub open spec fn snowflake_millis_spec(id: u64) -> int {
    id / 0x40_0000 + DISCORD_EPOCH
}

/// `(id >> 22) + DISCORD_EPOCH`.
pub fn snowflake_millis(id: u64) -> (ms: u64)
    ensures
        ms == snowflake_millis_spec(id),
        ms <= 0x7fff_ffff_ffff_ffff,
{
    assert(id >> 22u64 == id / 0x40_0000) by (bit_vector);
    (id >> 22) + DISCORD_EPOCH
}

/// The instant the id in `text` was made, or the answer to a text that is
/// no decimal id.
pub fn extract_time_millis(text: &str) -> (r: Result<i64, String>)
    ensures
        match parse_u64_spec(text@) {
            Ok(id) => r == Ok::<i64, String>(snowflake_millis_spec(id) as i64),
            Err(k) => r matches Err(m) && m@ == "Invalid ID: "@ + parse_int_error_debug_spec(k),
        },
{
    match parse_u64(text) {
        Ok(id) => Ok(snowflake_millis(id) as i64),
        Err(k) => {
            let dbg = parse_int_error_debug(k);
            Err(concat2("Invalid ID: ", dbg.as_str()))
        },
    }
}

/// Later ids were made no earlier.
pub proof fn lemma_snowflake_monotonic(a: u64, b: u64)
    requires
        a <= b,
    ensures
        snowflake_millis_spec(a) <= snowflake_millis_spec(b),
{
    vstd::arithmetic::div_mod::lemma_div_is_ordered(a as int, b as int, 0x40_0000);
}

/// An id made at Unix millisecond `t` (at or after the epoch), whatever its
/// lowest 22 bits hold, gives `t` back.
pub proof fn lemma_snowflake_roundtrip(t: u64, low: u64)
    requires
        t >= DISCORD_EPOCH,
        low < 0x40_0000,
        (t - DISCORD_EPOCH) * 0x40_0000 + low <= u64::MAX,
    ensures
        snowflake_millis_spec(((t - DISCORD_EPOCH) * 0x40_0000 + low) as u64) == t,
{
    let q = (t - DISCORD_EPOCH) as int;
    vstd::arithmetic::div_mod::lemma_fundamental_div_mod_converse(
        q * 0x40_0000 + low,
        0x40_0000,
        q,
        low as int,
    );
}

} // verus!
