//! `/guild_info`: reading the guild id it is given.
use vstd::prelude::*;
use crate::num::{parse_u64, parse_u64_spec, parse_int_error_debug, parse_int_error_debug_spec};
use crate::text::concat2;

verus! {

/// The guild id in `text`, or the answer to a text that is no decimal id.
pub fn parse_guild_id(text: &str) -> (r: Result<u64, String>)
    ensures
        match parse_u64_spec(text@) {
            Ok(id) => r == Ok::<u64, String>(id),
            Err(k) => r matches Err(m) && m@ == "Invalid guild ID: "@ + parse_int_error_debug_spec(
                k,
            ),
        },
{
    match parse_u64(text) {
        Ok(id) => Ok(id),
        Err(k) => {
            let dbg = parse_int_error_debug(k);
            Err(concat2("Invalid guild ID: ", dbg.as_str()))
        },
    }
}

} // verus!
