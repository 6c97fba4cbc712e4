//! The first client of Cat as a service: the URL of a cat picture as JSON,
//! and the cached list of tags.
use vstd::prelude::*;
use crate::external::cataas::{cat_path_spec, cat_path_url, opt_view, views};

verus! {

/// The URL that asks for a cat picture's description as JSON.
pub fn cat_url(tag: Option<&str>, says: Option<&str>) -> (url: String)
    ensures
        url@ == cat_path_spec(opt_view(tag), opt_view(says)) + "?json=true"@,
{
    let mut url = cat_path_url(tag, says);
    url.append("?json=true");
    url
}

/// The tags `tags` without the empty ones, in order.
pub open spec fn non_empty_tags_spec(tags: Seq<Seq<char>>) -> Seq<Seq<char>>
    decreases tags.len(),
{
    if tags.len() == 0 {
        seq![]
    } else {
        let rest = non_empty_tags_spec(tags.drop_last());
        if tags.last().len() == 0 {
            rest
        } else {
            rest.push(tags.last())
        }
    }
}

/// The client's state: the tags once they were fetched.
#[derive(Clone, Debug)]
pub struct CatAss {
    pub tags: Option<Vec<String>>,
}

impl CatAss {
    pub fn new() -> (c: CatAss)
        ensures
            c.tags.is_none(),
    {
        CatAss { tags: None }
    }

    /// Keeps the non-empty tags of a successful fetch, caches and returns
    /// them (what `fetch_tags` does with the answer).
    pub fn store_fetched_tags(&mut self, fetched: Vec<String>) -> (r: Vec<String>)
        ensures
            views(r@) == non_empty_tags_spec(views(fetched@)),
            final(self).tags matches Some(t) && t@ == r@,
    {
        let mut r: Vec<String> = Vec::new();
        let mut i: usize = 0;
        while i < fetched.len()
            invariant
                i <= fetched@.len(),
                views(r@) == non_empty_tags_spec(views(fetched@).subrange(0, i as int)),
            decreases fetched@.len() - i,
        {
            let t = &fetched[i];
            let ghost before = views(fetched@).subrange(0, i as int);
            let ghost after = views(fetched@).subrange(0, i + 1);
            assert(after.drop_last() =~= before);
            assert(after.last() == t@);
            if crate::text::char_count(t.as_str()) != 0 {
                r.push(t.clone());
            }
            assert(views(r@) =~= non_empty_tags_spec(after));
            i = i + 1;
        }
        assert(views(fetched@).subrange(0, fetched@.len() as int) =~= views(fetched@));
        let cached = r.clone();
        self.tags = Some(cached);
        r
    }
}

} // verus!
