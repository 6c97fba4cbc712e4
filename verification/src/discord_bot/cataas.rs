//! The decisions of the `/cat` command: tag completion, the number of
//! pictures, the file name of a picture and what each fetched picture
//! answers.
use vstd::prelude::*;
use crate::db::traces::{CommandStatus, CommandTrace};
use crate::external::cataas::views;
use crate::text::{is_prefix, to_chars, chars_to_string, starts_with, owned, concat2};
use crate::discord_bot::traces::same_invocation;

verus! {

/// The index of the last comma of `s`, or `-1` when it has none.
pub open spec fn last_comma(s: Seq<char>) -> int
    decreases s.len(),
{
    if s.len() == 0 {
        -1
    } else if s.last() == ',' {
        s.len() - 1
    } else {
        last_comma(s.drop_last())
    }
}

/// What the user typed before the tag being completed: everything up to and
/// including the last comma.
pub open spec fn completion_prefix(partial: Seq<char>) -> Seq<char> {
    partial.subrange(0, last_comma(partial) + 1)
}

/// The tag being completed: everything after the last comma.
pub open spec fn completion_segment(partial: Seq<char>) -> Seq<char> {
    partial.subrange(last_comma(partial) + 1, partial.len() as int)
}

/// The suggestions for `partial`: each known tag that starts with the tag
/// being completed, behind what was typed before it, in the order of `tags`.
pub open spec fn suggestions(tags: Seq<Seq<char>>, partial: Seq<char>) -> Seq<Seq<char>>
    decreases tags.len(),
{
    if tags.len() == 0 {
        seq![]
    } else {
        let rest = suggestions(tags.drop_last(), partial);
        if is_prefix(completion_segment(partial), tags.last()) {
            rest.push(completion_prefix(partial) + tags.last())
        } else {
            rest
        }
    }
}

proof fn lemma_last_comma(s: Seq<char>)
    ensures
        -1 <= last_comma(s) < s.len(),
        last_comma(s) >= 0 ==> s[last_comma(s)] == ',',
        forall|j: int| last_comma(s) < j < s.len() ==> s[j] != ',',
    decreases s.len(),
{
    if s.len() > 0 && s.last() != ',' {
        lemma_last_comma(s.drop_last());
        assert forall|j: int| last_comma(s) < j < s.len() implies s[j] != ',' by {
            if j < s.len() - 1 {
                assert(s[j] == s.drop_last()[j]);
            }
        }
    }
}

proof fn lemma_last_comma_unique(s: Seq<char>, k: int)
    requires
        -1 <= k < s.len(),
        k >= 0 ==> s[k] == ',',
        forall|j: int| k < j < s.len() ==> s[j] != ',',
    ensures
        last_comma(s) == k,
    decreases s.len(),
{
    if s.len() > 0 && s.last() != ',' {
        assert forall|j: int| k < j < s.drop_last().len() implies s.drop_last()[j] != ',' by {
            assert(s.drop_last()[j] == s[j]);
        }
        if k >= 0 {
            assert(s.drop_last()[k] == s[k]);
        }
        lemma_last_comma_unique(s.drop_last(), k);
    }
}

/// The completions offered for the tag option (`autocomplete_tag`).
pub fn autocomplete_tag(tags: &Vec<String>, partial: &str) -> (r: Vec<String>)
    ensures
        views(r@) == suggestions(views(tags@), partial@),
{
    let pv = to_chars(partial);
    let n = pv.len();
    let mut k: usize = n;
    while k > 0 && pv[k - 1] != ','
        invariant
            pv@ == partial@,
            n == pv@.len(),
            k <= n,
            forall|j: int| k <= j < n ==> pv@[j] != ',',
        decreases k,
    {
        k = k - 1;
    }
    proof {
        lemma_last_comma_unique(partial@, k - 1);
    }
    let prefix = chars_to_string(&pv, 0, k);
    let segment = chars_to_string(&pv, k, n);
    let mut r: Vec<String> = Vec::new();
    let mut i: usize = 0;
    while i < tags.len()
        invariant
            i <= tags@.len(),
            prefix@ == completion_prefix(partial@),
            segment@ == completion_segment(partial@),
            views(r@) == suggestions(views(tags@).subrange(0, i as int), partial@),
        decreases tags@.len() - i,
    {
        let t = &tags[i];
        let ghost before = views(tags@).subrange(0, i as int);
        let ghost after = views(tags@).subrange(0, i + 1);
        assert(after.drop_last() =~= before);
        assert(after.last() == t@);
        if starts_with(t.as_str(), segment.as_str()) {
            r.push(concat2(prefix.as_str(), t.as_str()));
        }
        assert(views(r@) =~= suggestions(after, partial@));
        i = i + 1;
    }
    assert(views(tags@).subrange(0, tags@.len() as int) =~= views(tags@));
    r
}

/// Every suggestion keeps what was typed before the tag being completed and
/// ends in a known tag that starts with the typed part of the tag.
pub proof fn lemma_suggestions_extend_partial(tags: Seq<Seq<char>>, partial: Seq<char>, i: int)
    requires
        0 <= i < suggestions(tags, partial).len(),
    ensures
        is_prefix(completion_prefix(partial), suggestions(tags, partial)[i]),
        exists|j: int|
            0 <= j < tags.len() && #[trigger] tags[j] == suggestions(tags, partial)[i].subrange(
                completion_prefix(partial).len() as int,
                suggestions(tags, partial)[i].len() as int,
            ) && is_prefix(completion_segment(partial), tags[j]),
    decreases tags.len(),
{
    let rest = suggestions(tags.drop_last(), partial);
    let p = completion_prefix(partial);
    if i < rest.len() {
        lemma_suggestions_extend_partial(tags.drop_last(), partial, i);
        let j = choose|j: int|
            0 <= j < tags.drop_last().len() && #[trigger] tags.drop_last()[j] == rest[i].subrange(
                p.len() as int,
                rest[i].len() as int,
            ) && is_prefix(completion_segment(partial), tags.drop_last()[j]);
        assert(tags[j] == tags.drop_last()[j]);
        assert(suggestions(tags, partial)[i] == rest[i]);
    } else {
        let s = p + tags.last();
        assert(suggestions(tags, partial)[i] == s);
        assert(s.subrange(0, p.len() as int) =~= p);
        assert(s.subrange(p.len() as int, s.len() as int) =~= tags.last());
        assert(tags[tags.len() - 1] == tags.last());
    }
}

/// Every known tag that starts with the typed part of the tag being
/// completed is offered, behind what was typed before it; a tag equal to the
/// typed part is offered too.
pub proof fn lemma_suggestions_complete(tags: Seq<Seq<char>>, partial: Seq<char>, j: int)
    requires
        0 <= j < tags.len(),
        is_prefix(completion_segment(partial), tags[j]),
    ensures
        suggestions(tags, partial).contains(completion_prefix(partial) + tags[j]),
    decreases tags.len(),
{
    let rest = suggestions(tags.drop_last(), partial);
    let want = completion_prefix(partial) + tags[j];
    if j < tags.len() - 1 {
        assert(tags.drop_last()[j] == tags[j]);
        lemma_suggestions_complete(tags.drop_last(), partial, j);
        let k = choose|k: int| 0 <= k < rest.len() && rest[k] == want;
        assert(suggestions(tags, partial)[k] == want);
    } else {
        assert(tags.last() == tags[j]);
        assert(suggestions(tags, partial)[rest.len() as int] == want);
    }
}

/// The suggestions are exactly the known tags that start with the typed part
/// of the tag being completed, in their order, each behind what was typed
/// before it.
pub proof fn lemma_suggestions_are_matching_tags(tags: Seq<Seq<char>>, partial: Seq<char>)
    ensures
        suggestions(tags, partial) == tags.filter(
            |t: Seq<char>| is_prefix(completion_segment(partial), t),
        ).map_values(|t: Seq<char>| completion_prefix(partial) + t),
    decreases tags.len(),
{
    reveal(Seq::filter);
    let pred = |t: Seq<char>| is_prefix(completion_segment(partial), t);
    let f = |t: Seq<char>| completion_prefix(partial) + t;
    if tags.len() > 0 {
        lemma_suggestions_are_matching_tags(tags.drop_last(), partial);
        let sub = tags.drop_last().filter(pred);
        if pred(tags.last()) {
            assert(tags.filter(pred) == sub.push(tags.last()));
            assert(sub.push(tags.last()).map_values(f) =~= sub.map_values(f).push(f(tags.last())));
        } else {
            assert(tags.filter(pred) == sub);
        }
    } else {
        assert(tags.filter(pred) =~= Seq::<Seq<char>>::empty());
        assert(tags.filter(pred).map_values(f) =~= Seq::<Seq<char>>::empty());
    }
}

/// The number of pictures asked for, or the answer when it is out of range:
/// one by default, and from one to six.
pub fn cat_amount(amount: Option<u8>) -> (r: Result<u8, String>)
    ensures
        match amount {
            None => r == Ok::<u8, String>(1),
            Some(a) => if 1 <= a <= 6 {
                r == Ok::<u8, String>(a)
            } else {
                r matches Err(m) && m@ == "Amount must be between 1 and 6"@
            },
        },
{
    match amount {
        None => Ok(1),
        Some(a) => {
            if 1 <= a && a <= 6 {
                Ok(a)
            } else {
                Err(owned("Amount must be between 1 and 6"))
            }
        },
    }
}

/// The file extension for a picture of the given MIME type.
pub open spec fn image_extension_spec(mimetype: Seq<char>) -> Seq<char> {
    if mimetype == "image/png"@ {
        "png"@
    } else if mimetype == "image/jpeg"@ {
        "jpg"@
    } else if mimetype == "image/gif"@ {
        "gif"@
    } else {
        "img"@
    }
}

/// The file name of an attached picture: `cat.<extension>`.
pub fn cat_file_name(mimetype: &str) -> (name: String)
    ensures
        name@ == "cat."@ + image_extension_spec(mimetype@),
{
    let ext = if crate::text::str_eq(mimetype, "image/png") {
        "png"
    } else if crate::text::str_eq(mimetype, "image/jpeg") {
        "jpg"
    } else if crate::text::str_eq(mimetype, "image/gif") {
        "gif"
    } else {
        "img"
    };
    concat2("cat.", ext)
}

/// What one request for a cat picture brought.
#[derive(Clone, Debug)]
pub enum CatFetch {
    /// The picture at `url` was downloaded.
    Image { url: String },
    /// The picture's description came, the picture at `url` did not;
    /// `error` and `response` are the debug texts of the failure and of the
    /// description.
    ImageFailed { url: String, error: String, response: String },
    /// The service knows no such cat.
    NotFound,
    /// Asking for the picture failed; `error` and `pretty_error` are its debug
    /// texts, plain and pretty.
    Failed { error: String, pretty_error: String },
}

/// How the command answers one fetched picture.
#[derive(Clone, Debug)]
pub enum CatReply {
    /// Send the downloaded picture.
    SendImage,
    /// Reply with a text.
    Reply(String),
    /// Attach a text as a file of the given name.
    Attach { text: String, filename: String },
}

/// Records the outcome of one fetched picture in the trace and tells how to
/// answer it; the boolean tells whether to stop asking for more pictures.
pub fn record_cat_fetch(trace: &mut CommandTrace, fetch: CatFetch, verbose: bool) -> (r: (
    CatReply,
    bool,
))
    ensures
        same_invocation(*final(trace), *old(trace)),
        match fetch {
            CatFetch::Image { url } => {
                &&& r.0 is SendImage
                &&& !r.1
                &&& final(trace).status == old(trace).status
                &&& final(trace).error == old(trace).error
                &&& final(trace).output matches Some(o) && o@ == "Image: "@ + url@
            },
            CatFetch::ImageFailed { url, error, response } => {
                &&& !r.1
                &&& final(trace).status == CommandStatus::Error
                &&& final(trace).error == Some(error)
                &&& if verbose {
                    &&& final(trace).output == Some(response)
                    &&& r.0 matches CatReply::Attach { text, filename } && text == response
                        && filename@ == "error.txt"@
                } else {
                    &&& final(trace).output == Some(url)
                    &&& r.0 == CatReply::Reply(url)
                }
            },
            CatFetch::NotFound => {
                &&& !r.1
                &&& final(trace).status == old(trace).status
                &&& final(trace).error == old(trace).error
                &&& final(trace).output matches Some(o) && o@ == "No cat found"@
                &&& r.0 matches CatReply::Reply(m) && m@ == "No cat found"@
            },
            CatFetch::Failed { error, pretty_error } => {
                &&& r.1
                &&& final(trace).status == CommandStatus::Error
                &&& final(trace).error == Some(error)
                &&& if verbose {
                    &&& final(trace).output == Some(pretty_error)
                    &&& r.0 matches CatReply::Attach { text, filename } && text == pretty_error
                        && filename@ == "error.txt"@
                } else {
                    &&& final(trace).output matches Some(o) && o@ == "Error evaluating expression"@
                    &&& r.0 matches CatReply::Reply(m) && m@ == "Error evaluating expression"@
                }
            },
        },
{
    match fetch {
        CatFetch::Image { url } => {
            trace.output = Some(concat2("Image: ", url.as_str()));
            (CatReply::SendImage, false)
        },
        CatFetch::ImageFailed { url, error, response } => {
            trace.error = Some(error);
            trace.status = CommandStatus::Error;
            if verbose {
                trace.output = Some(response.clone());
                (CatReply::Attach { text: response, filename: owned("error.txt") }, false)
            } else {
                trace.output = Some(url.clone());
                (CatReply::Reply(url), false)
            }
        },
        CatFetch::NotFound => {
            trace.output = Some(owned("No cat found"));
            (CatReply::Reply(owned("No cat found")), false)
        },
        CatFetch::Failed { error, pretty_error } => {
            trace.status = CommandStatus::Error;
            trace.error = Some(error);
            if verbose {
                trace.output = Some(pretty_error.clone());
                (CatReply::Attach { text: pretty_error, filename: owned("error.txt") }, true)
            } else {
                trace.output = Some(owned("Error evaluating expression"));
                (CatReply::Reply(owned("Error evaluating expression")), true)
            }
        },
    }
}

} // verus!
