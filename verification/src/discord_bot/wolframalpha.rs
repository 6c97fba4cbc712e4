//! The answer of the `/wolframalpha` command: the pods of WolframAlpha's
//! answer as Markdown sections with quoted text.
use vstd::prelude::*;
use crate::external::wolframalpha::{Pod, SubPod};
use crate::external::cataas::views;
use crate::text::{push_char, to_chars, owned};

verus! {

/// The pieces of `s` between its newlines (one more than it has newlines).
pub open spec fn split_newlines(s: Seq<char>) -> Seq<Seq<char>>
    decreases s.len(),
{
    if s.len() == 0 {
        seq![seq![]]
    } else {
        let p = split_newlines(s.drop_last());
        if s.last() == '\n' {
            p.push(seq![])
        } else {
            p.update(p.len() - 1, p.last().push(s.last()))
        }
    }
}

proof fn lemma_split_newlines_len(s: Seq<char>)
    ensures
        split_newlines(s).len() >= 1,
    decreases s.len(),
{
    if s.len() > 0 {
        lemma_split_newlines_len(s.drop_last());
    }
}

/// A line that ended with `\r\n` loses its `\r`.
pub open spec fn strip_cr(l: Seq<char>) -> Seq<char> {
    if l.len() > 0 && l.last() == '\r' {
        l.drop_last()
    } else {
        l
    }
}

/// The lines of `s` (std's `str::lines`): split at `\n` or `\r\n`, with no
/// empty line after a final line ending.
pub open spec fn lines(s: Seq<char>) -> Seq<Seq<char>> {
    let p = split_newlines(s);
    let q = p.subrange(0, p.len() - 1).map_values(|l: Seq<char>| strip_cr(l));
    if p.last().len() == 0 {
        q
    } else {
        q.push(p.last())
    }
}

/// The pieces `ls` with `sep` between each two.
pub open spec fn join(ls: Seq<Seq<char>>, sep: Seq<char>) -> Seq<char>
    decreases ls.len(),
{
    if ls.len() == 0 {
        seq![]
    } else if ls.len() == 1 {
        ls[0]
    } else {
        join(ls.drop_last(), sep) + sep + ls.last()
    }
}

/// The lines of a text, each but the first starting a new quoted line.
pub open spec fn quote_lines(s: Seq<char>) -> Seq<char> {
    join(lines(s), "\n> "@)
}

/// The text of a pod: the plain text of its sub-pods, one after the other.
pub open spec fn subpods_text(subpods: Seq<SubPod>) -> Seq<char>
    decreases subpods.len(),
{
    if subpods.len() == 0 {
        seq![]
    } else {
        subpods_text(subpods.drop_last()) + subpods.last().plaintext@
    }
}

/// The section of one pod, empty for a pod without text.
pub open spec fn pod_section(p: Pod) -> Seq<char> {
    let d = subpods_text(p.subpods@);
    if d.len() == 0 {
        seq![]
    } else {
        "## "@ + p.title@ + "\n"@ + "> "@ + quote_lines(d) + "\n"@
    }
}

/// The answer to the pods, one section after the other.
pub open spec fn wolfram_answer(pods: Seq<Pod>) -> Seq<char>
    decreases pods.len(),
{
    if pods.len() == 0 {
        seq![]
    } else {
        wolfram_answer(pods.drop_last()) + pod_section(pods.last())
    }
}

/// A lone pod's answer: a pod whose sub-pods carry any text at all (even a
/// single character) gets `## <title>`, a newline and its text quoted line by
/// line, ended by a newline; only a pod with no text gets nothing.
pub proof fn lemma_wolfram_answer_one_pod(p: Pod)
    ensures
        subpods_text(p.subpods@).len() > 0 ==> wolfram_answer(seq![p]) == "## "@ + p.title@
            + "\n> "@ + join(lines(subpods_text(p.subpods@)), "\n> "@) + "\n"@,
        subpods_text(p.subpods@).len() == 0 ==> wolfram_answer(seq![p]) == Seq::<char>::empty(),
{
    assert(seq![p].drop_last() =~= Seq::<Pod>::empty());
    assert(seq![p].last() == p);
    assert(wolfram_answer(Seq::<Pod>::empty()) == Seq::<char>::empty());
    assert(wolfram_answer(seq![p]) == wolfram_answer(seq![p].drop_last()) + pod_section(p));
    assert(wolfram_answer(seq![p]) =~= pod_section(p));
    assert("## "@ + p.title@ + "\n"@ + "> "@ =~= "## "@ + p.title@ + "\n> "@) by {
        reveal_strlit("\n");
        reveal_strlit("> ");
        reveal_strlit("\n> ");
    }
}

/// The answer to a list of pods is the answer to its first part followed by
/// the answer to the rest: every pod is answered in order, none is dropped.
pub proof fn lemma_wolfram_answer_concat(a: Seq<Pod>, b: Seq<Pod>)
    ensures
        wolfram_answer(a + b) == wolfram_answer(a) + wolfram_answer(b),
    decreases b.len(),
{
    if b.len() == 0 {
        assert(a + b =~= a);
        assert(wolfram_answer(a) + wolfram_answer(b) =~= wolfram_answer(a));
    } else {
        lemma_wolfram_answer_concat(a, b.drop_last());
        assert((a + b).drop_last() =~= a + b.drop_last());
        assert((a + b).last() == b.last());
        assert(wolfram_answer(a + b) =~= wolfram_answer(a) + wolfram_answer(b));
    }
}

/// `s.lines()`, collected.
pub fn text_lines(s: &str) -> (r: Vec<String>)
    ensures
        views(r@) == lines(s@),
{
    let v = to_chars(s);
    let mut done: Vec<String> = Vec::new();
    let mut cur = String::new();
    let mut i: usize = 0;
    proof {
        assert(s@.subrange(0, 0) =~= Seq::<char>::empty());
    }
    while i < v.len()
        invariant
            v@ == s@,
            i <= v@.len(),
            split_newlines(s@.subrange(0, i as int)).len() >= 1,
            views(done@) == split_newlines(s@.subrange(0, i as int)).subrange(
                0,
                split_newlines(s@.subrange(0, i as int)).len() - 1,
            ).map_values(|l: Seq<char>| strip_cr(l)),
            cur@ == split_newlines(s@.subrange(0, i as int)).last(),
        decreases v@.len() - i,
    {
        let c = v[i];
        let ghost pre = s@.subrange(0, i as int);
        let ghost post = s@.subrange(0, i + 1);
        assert(post.drop_last() =~= pre);
        assert(post.last() == c);
        let ghost p = split_newlines(pre);
        if c == '\n' {
            let cl = cur.clone();
            let line = strip_trailing_cr(cl);
            let ghost old_done = views(done@);
            done.push(line);
            cur = String::new();
            assert(split_newlines(post) == p.push(seq![]));
            assert(views(done@) =~= old_done.push(strip_cr(p.last())));
            assert(split_newlines(post).subrange(0, split_newlines(post).len() - 1) =~= p);
            assert(p =~= p.subrange(0, p.len() - 1).push(p.last()));
            assert(p.map_values(|l: Seq<char>| strip_cr(l)) =~= p.subrange(0, p.len() - 1).map_values(
                |l: Seq<char>| strip_cr(l),
            ).push(strip_cr(p.last())));
            assert(views(done@) =~= split_newlines(post).subrange(
                0,
                split_newlines(post).len() - 1,
            ).map_values(|l: Seq<char>| strip_cr(l)));
        } else {
            push_char(&mut cur, c);
            assert(split_newlines(post) == p.update(p.len() - 1, p.last().push(c)));
            assert(views(done@) =~= split_newlines(post).subrange(
                0,
                split_newlines(post).len() - 1,
            ).map_values(|l: Seq<char>| strip_cr(l)));
        }
        i = i + 1;
    }
    assert(s@.subrange(0, v@.len() as int) =~= s@);
    if crate::text::char_count(cur.as_str()) > 0 {
        done.push(cur);
        assert(views(done@) =~= lines(s@));
    }
    done
}

fn strip_trailing_cr(l: String) -> (r: String)
    ensures
        r@ == strip_cr(l@),
{
    let v = to_chars(l.as_str());
    if v.len() > 0 && v[v.len() - 1] == '\r' {
        crate::text::chars_to_string(&v, 0, v.len() - 1)
    } else {
        l
    }
}

/// `ls.join(sep)`.
pub fn join_strings(ls: &Vec<String>, sep: &str) -> (r: String)
    ensures
        r@ == join(views(ls@), sep@),
{
    let mut r = String::new();
    let mut i: usize = 0;
    while i < ls.len()
        invariant
            i <= ls@.len(),
            r@ == join(views(ls@).subrange(0, i as int), sep@),
        decreases ls@.len() - i,
    {
        let ghost pre = views(ls@).subrange(0, i as int);
        let ghost post = views(ls@).subrange(0, i + 1);
        assert(post.drop_last() =~= pre);
        if i > 0 {
            r.append(sep);
        } else {
            assert(r@ =~= Seq::<char>::empty());
        }
        r.append(ls[i].as_str());
        assert(r@ =~= join(post, sep@));
        i = i + 1;
    }
    assert(views(ls@).subrange(0, ls@.len() as int) =~= views(ls@));
    r
}

fn pod_text(pod: &Pod) -> (d: String)
    ensures
        d@ == subpods_text(pod.subpods@),
{
    let mut d = String::new();
    let mut i: usize = 0;
    while i < pod.subpods.len()
        invariant
            i <= pod.subpods@.len(),
            d@ == subpods_text(pod.subpods@.subrange(0, i as int)),
        decreases pod.subpods@.len() - i,
    {
        let ghost post = pod.subpods@.subrange(0, i + 1);
        assert(post.drop_last() =~= pod.subpods@.subrange(0, i as int));
        d.append(pod.subpods[i].plaintext.as_str());
        i = i + 1;
    }
    assert(pod.subpods@.subrange(0, pod.subpods@.len() as int) =~= pod.subpods@);
    d
}

/// The answer of the command: for each pod with text, a `## <title>`
/// heading and its text quoted line by line.
pub fn format_pods(pods: &Vec<Pod>) -> (r: String)
    ensures
        r@ == wolfram_answer(pods@),
{
    let mut response = String::new();
    let mut i: usize = 0;
    while i < pods.len()
        invariant
            i <= pods@.len(),
            response@ == wolfram_answer(pods@.subrange(0, i as int)),
        decreases pods@.len() - i,
    {
        let pod = &pods[i];
        let ghost post = pods@.subrange(0, i + 1);
        assert(post.drop_last() =~= pods@.subrange(0, i as int));
        assert(post.last() == *pod);
        let description = pod_text(pod);
        if crate::text::char_count(description.as_str()) != 0 {
            let ls = text_lines(description.as_str());
            let quoted = join_strings(&ls, "\n> ");
            response.append("## ");
            response.append(pod.title.as_str());
            response.append("\n");
            response.append("> ");
            response.append(quoted.as_str());
            response.append("\n");
        }
        assert(response@ =~= wolfram_answer(post));
        i = i + 1;
    }
    assert(pods@.subrange(0, pods@.len() as int) =~= pods@);
    response
}

} // verus!
