//! `/version`: the revision the bot was built from.
use vstd::prelude::*;
use crate::text::concat3;

verus! {

/// The answer of `/version` for the given revision.
pub fn version_text(git_sha: &str) -> (s: String)
    ensures
        s@ == "version: `"@ + git_sha@ + "`"@,
{
    concat3("version: `", git_sha, "`")
}

} // verus!
