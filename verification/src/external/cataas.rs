//! Cat as a service (https://cataas.com): the request options and the URL of
//! a cat picture.
use vstd::prelude::*;
use crate::text::{is_blank, is_blank_str, is_prefix, url_encode, percent_encode, owned};

verus! {

pub const CATAAS_CAT_URL: &'static str = "https://cataas.com/cat";

pub const CATAAS_TAGS_URL: &'static str = "https://cataas.com/api/tags";

#[derive(PartialEq, Eq, Structural, Clone, Copy, Debug)]
pub enum Type {
    Square,
    Medium,
    Small,
    XSmall,
}

#[derive(PartialEq, Eq, Structural, Clone, Copy, Debug)]
pub enum Filter {
    Mono,
    Negate,
    Custom,
}

#[derive(PartialEq, Eq, Structural, Clone, Copy, Debug)]
pub enum Fit {
    Cover,
    Contain,
    Fill,
    Inside,
    Outside,
}

#[derive(PartialEq, Eq, Structural, Clone, Copy, Debug)]
pub enum Position {
    Top,
    RightTop,
    Right,
    RightBottom,
    Bottom,
    LeftBottom,
    Left,
    LeftTop,
    Center,
}

impl Type {
    /// The value of the option in a request.
    pub fn as_str(&self) -> (r: &'static str)
        ensures
            r@ == (match *self {
                Type::Square => "square"@,
                Type::Medium => "medium"@,
                Type::Small => "small"@,
                Type::XSmall => "xsmall"@,
            }),
    {
        match self {
            Type::Square => "square",
            Type::Medium => "medium",
            Type::Small => "small",
            Type::XSmall => "xsmall",
        }
    }
}

impl Filter {
    /// The value of the option in a request.
    pub fn as_str(&self) -> (r: &'static str)
        ensures
            r@ == (match *self {
                Filter::Mono => "mono"@,
                Filter::Negate => "negate"@,
                Filter::Custom => "custom"@,
            }),
    {
        match self {
            Filter::Mono => "mono",
            Filter::Negate => "negate",
            Filter::Custom => "custom",
        }
    }
}

impl Fit {
    /// The value of the option in a request.
    pub fn as_str(&self) -> (r: &'static str)
        ensures
            r@ == (match *self {
                Fit::Cover => "cover"@,
                Fit::Contain => "contain"@,
                Fit::Fill => "fill"@,
                Fit::Inside => "inside"@,
                Fit::Outside => "outside"@,
            }),
    {
        match self {
            Fit::Cover => "cover",
            Fit::Contain => "contain",
            Fit::Fill => "fill",
            Fit::Inside => "inside",
            Fit::Outside => "outside",
        }
    }
}

impl Position {
    /// The value of the option in a request.
    pub fn as_str(&self) -> (r: &'static str)
        ensures
            r@ == (match *self {
                Position::Top => "top"@,
                Position::RightTop => "right top"@,
                Position::Right => "right"@,
                Position::RightBottom => "right bottom"@,
                Position::Bottom => "bottom"@,
                Position::LeftBottom => "left bottom"@,
                Position::Left => "left"@,
                Position::LeftTop => "left top"@,
                Position::Center => "center"@,
            }),
    {
        match self {
            Position::Top => "top",
            Position::RightTop => "right top",
            Position::Right => "right",
            Position::RightBottom => "right bottom",
            Position::Bottom => "bottom",
            Position::LeftBottom => "left bottom",
            Position::Left => "left",
            Position::LeftTop => "left top",
            Position::Center => "center",
        }
    }
}

impl Default for Position {
    fn default() -> (p: Position)
        ensures
            p == Position::Center,
    {
        Position::Center
    }
}

/// The options of a cat picture request.
#[derive(Clone, Copy, Debug)]
pub struct CATAASCatRequest {
    pub cat_type: Option<Type>,
    pub filter: Option<Filter>,
    pub fit: Option<Fit>,
    pub position: Option<Position>,
    pub width: Option<i32>,
    pub height: Option<i32>,
    pub blur: Option<i32>,
    pub r: Option<i32>,
    pub g: Option<i32>,
    pub b: Option<i32>,
    pub brightness: Option<i32>,
    pub saturation: Option<i32>,
    pub hue: Option<i32>,
    pub lightness: Option<i32>,
    pub json: Option<bool>,
}

/// The URL of a cat picture, before its query: `/<tag>` when a tag is
/// given, then `/says/<text>` with the text percent-encoded.
pub open spec fn cat_path_spec(tag: Option<Seq<char>>, says: Option<Seq<char>>) -> Seq<char> {
    let with_tag = match tag {
        Some(t) => CATAAS_CAT_URL@ + "/"@ + t,
        None => CATAAS_CAT_URL@,
    };
    match says {
        Some(s) => with_tag + "/says/"@ + percent_encode(vstd::utf8::encode_utf8(s)),
        None => with_tag,
    }
}

/// A given tag always stands in the picture URL, right after the base URL,
/// whether or not a caption is given; without a caption the URL ends there,
/// and a caption only appends `/says/` and its percent-encoded text.
pub proof fn lemma_cat_path_keeps_tag(tag: Option<Seq<char>>, says: Option<Seq<char>>)
    ensures
        tag matches Some(t) ==> is_prefix(CATAAS_CAT_URL@ + "/"@ + t, cat_path_spec(tag, says)),
        tag matches Some(t) ==> (says is None ==> cat_path_spec(tag, says) == CATAAS_CAT_URL@
            + "/"@ + t),
        tag is None && says is None ==> cat_path_spec(tag, says) == CATAAS_CAT_URL@,
        says matches Some(s) ==> cat_path_spec(tag, says) == cat_path_spec(tag, None) + "/says/"@
            + percent_encode(vstd::utf8::encode_utf8(s)),
{
    match tag {
        Some(t) => {
            let p = CATAAS_CAT_URL@ + "/"@ + t;
            match says {
                Some(x) => {
                    let u = p + "/says/"@ + percent_encode(vstd::utf8::encode_utf8(x));
                    assert(u.subrange(0, p.len() as int) =~= p);
                },
                None => {
                    assert(p.subrange(0, p.len() as int) =~= p);
                },
            }
        },
        None => {},
    }
}

pub open spec fn opt_view(o: Option<&str>) -> Option<Seq<char>> {
    match o {
        Some(s) => Some(s@),
        None => None,
    }
}

/// The URL of a cat picture with the given tag and caption, without its
/// query (the first step of `CATAAS::get_cat_url`).
pub fn cat_path_url(tag: Option<&str>, says: Option<&str>) -> (url: String)
    ensures
        url@ == cat_path_spec(opt_view(tag), opt_view(says)),
{
    let mut url = owned(CATAAS_CAT_URL);
    match tag {
        Some(t) => {
            url.append("/");
            url.append(t);
        },
        None => {},
    }
    match says {
        Some(s) => {
            url.append("/says/");
            let enc = url_encode(s);
            url.append(enc.as_str());
        },
        None => {},
    }
    url
}

/// The tags `tags` without the blank ones, in order.
pub open spec fn non_blank_tags_spec(tags: Seq<Seq<char>>) -> Seq<Seq<char>>
    decreases tags.len(),
{
    if tags.len() == 0 {
        seq![]
    } else {
        let rest = non_blank_tags_spec(tags.drop_last());
        if is_blank(tags.last()) {
            rest
        } else {
            rest.push(tags.last())
        }
    }
}

/// The kept tags are exactly the tags that are not blank, in their order:
/// none is dropped or added, and nothing is cut off.
pub proof fn lemma_non_blank_tags_filter(tags: Seq<Seq<char>>)
    ensures
        non_blank_tags_spec(tags) == tags.filter(|t: Seq<char>| !is_blank(t)),
        non_blank_tags_spec(tags).len() <= tags.len(),
        forall|t: Seq<char>|
            #[trigger] non_blank_tags_spec(tags).contains(t) <==> (tags.contains(t) && !is_blank(t)),
    decreases tags.len(),
{
    reveal(Seq::filter);
    let pred = |t: Seq<char>| !is_blank(t);
    if tags.len() > 0 {
        lemma_non_blank_tags_filter(tags.drop_last());
        let rest = non_blank_tags_spec(tags.drop_last());
        assert forall|t: Seq<char>| #[trigger] non_blank_tags_spec(tags).contains(t) <==> (
        tags.contains(t) && !is_blank(t)) by {
            if tags.contains(t) && !is_blank(t) {
                let k = choose|k: int| 0 <= k < tags.len() && tags[k] == t;
                if k < tags.len() - 1 {
                    assert(tags.drop_last()[k] == t);
                    assert(tags.drop_last().contains(t));
                    assert(non_blank_tags_spec(tags.drop_last()).contains(t));
                    let m = choose|m: int| 0 <= m < rest.len() && rest[m] == t;
                    assert(non_blank_tags_spec(tags)[m] == t);
                } else {
                    assert(non_blank_tags_spec(tags)[rest.len() as int] == t);
                }
            }
            if non_blank_tags_spec(tags).contains(t) {
                let m = choose|m: int|
                    0 <= m < non_blank_tags_spec(tags).len() && non_blank_tags_spec(tags)[m] == t;
                if m < rest.len() {
                    assert(rest[m] == t);
                    assert(rest.contains(t));
                    let k = choose|k: int| 0 <= k < tags.drop_last().len() && tags.drop_last()[k] == t;
                    assert(tags[k] == t);
                } else {
                    assert(tags[tags.len() - 1] == t);
                }
            }
        }
    } else {
        assert(tags.filter(pred) =~= Seq::<Seq<char>>::empty());
    }
}

pub open spec fn views(v: Seq<String>) -> Seq<Seq<char>> {
    v.map_values(|s: String| s@)
}

/// The tags the service lists, without the blank ones (what
/// `CATAAS::fetch_tags` keeps of the answer).
pub fn non_blank_tags(tags: Vec<String>) -> (r: Vec<String>)
    ensures
        views(r@) == non_blank_tags_spec(views(tags@)),
{
    let mut r: Vec<String> = Vec::new();
    let mut i: usize = 0;
    while i < tags.len()
        invariant
            i <= tags@.len(),
            views(r@) == non_blank_tags_spec(views(tags@).subrange(0, i as int)),
        decreases tags@.len() - i,
    {
        let t = &tags[i];
        let ghost before = views(tags@).subrange(0, i as int);
        let ghost after = views(tags@).subrange(0, i + 1);
        assert(after.drop_last() =~= before);
        assert(after.last() == t@);
        if !is_blank_str(t.as_str()) {
            r.push(t.clone());
        }
        assert(views(r@) =~= non_blank_tags_spec(after));
        i = i + 1;
    }
    assert(views(tags@).subrange(0, tags@.len() as int) =~= views(tags@));
    r
}

} // verus!
