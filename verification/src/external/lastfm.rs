//! Last.fm: which track the configured user is listening to.
use vstd::prelude::*;
use crate::config::types::LastFMConfig;
use crate::text::{owned, str_eq};

verus! {

pub const BASE_URL: &'static str = "http://ws.audioscrobbler.com/2.0/";

/// The refresh interval when the configuration sets none, in seconds.
pub const INTERVAL_DEFAULT: u8 = 10;

/// The track being played.
#[derive(Clone, Debug)]
pub struct Response {
    pub artist: String,
    pub name: String,
    pub url: String,
}

/// The settings of the client once they were found usable.
#[derive(Clone, Debug)]
pub struct LastFM {
    pub interval_secs: u8,
    pub username: String,
    pub token: String,
}

/// An optional text setting that is set and not empty.
pub open spec fn is_set(o: Option<String>) -> bool {
    o matches Some(s) && s@.len() > 0
}

impl LastFM {
    /// The client for the configured user, or none when the user name or the
    /// API token is missing or empty; the interval defaults to ten seconds.
    pub fn new(lastfm: &LastFMConfig) -> (r: Option<LastFM>)
        ensures
            r is Some <==> (is_set(lastfm.username) && is_set(lastfm.token)),
            r matches Some(c) ==> {
                &&& lastfm.username == Some(c.username)
                &&& lastfm.token == Some(c.token)
                &&& c.interval_secs == (match lastfm.interval_secs {
                    Some(i) => i,
                    None => INTERVAL_DEFAULT,
                })
            },
    {
        let username = match &lastfm.username {
            Some(u) => u.clone(),
            None => String::new(),
        };
        if crate::text::char_count(username.as_str()) == 0 {
            return None;
        }
        let token = match &lastfm.token {
            Some(t) => t.clone(),
            None => String::new(),
        };
        if crate::text::char_count(token.as_str()) == 0 {
            return None;
        }
        let interval_secs = match lastfm.interval_secs {
            Some(i) => i,
            None => INTERVAL_DEFAULT,
        };
        Some(LastFM { interval_secs, username, token })
    }

    /// The request for the user's recent tracks, answered as JSON.
    pub fn recent_tracks_url(&self) -> (url: String)
        ensures
            url@ == BASE_URL@ + "?method=user.getrecenttracks&user="@ + self.username@
                + "&api_key="@ + self.token@ + "&format=json"@,
    {
        let mut url = owned(BASE_URL);
        url.append("?method=user.getrecenttracks&user=");
        url.append(self.username.as_str());
        url.append("&api_key=");
        url.append(self.token.as_str());
        url.append("&format=json");
        url
    }
}

/// A flag that Last.fm sends as text: only `"true"` is true.
pub fn string_to_bool(s: Option<String>) -> (r: Option<bool>)
    ensures
        r == (match s {
            Some(t) => Some(t@ == "true"@),
            None => None,
        }),
{
    match s {
        Some(t) => Some(str_eq(t.as_str(), "true")),
        None => None,
    }
}

/// A track of the recent-tracks answer.
#[derive(Clone, Debug)]
pub struct Track {
    pub artist: Artist,
    pub name: String,
    pub url: String,
    pub attr: Option<Attr>,
}

#[derive(Clone, Debug)]
pub struct Artist {
    pub text: String,
}

#[derive(Clone, Copy, Debug)]
pub struct Attr {
    pub nowplaying: Option<bool>,
}

/// The track is marked as playing now.
pub open spec fn is_now_playing(t: Track) -> bool {
    t.attr matches Some(a) && a.nowplaying == Some(true)
}

/// The first track marked as playing now, as the cached answer.
pub fn now_playing(tracks: &Vec<Track>) -> (r: Option<Response>)
    ensures
        match r {
            None => forall|i: int| 0 <= i < tracks@.len() ==> !is_now_playing(#[trigger] tracks@[i]),
            Some(resp) => exists|i: int|
                0 <= i < tracks@.len() && is_now_playing(#[trigger] tracks@[i]) && (forall|j: int|
                    0 <= j < i ==> !is_now_playing(#[trigger] tracks@[j]))
                    && resp.artist == tracks@[i].artist.text && resp.name == tracks@[i].name
                    && resp.url == tracks@[i].url,
        },
{
    let mut i: usize = 0;
    while i < tracks.len()
        invariant
            i <= tracks@.len(),
            forall|j: int| 0 <= j < i ==> !is_now_playing(#[trigger] tracks@[j]),
        decreases tracks@.len() - i,
    {
        let t = &tracks[i];
        let playing = match t.attr {
            Some(a) => match a.nowplaying {
                Some(b) => b,
                None => false,
            },
            None => false,
        };
        if playing {
            let resp = Response {
                artist: t.artist.text.clone(),
                name: t.name.clone(),
                url: t.url.clone(),
            };
            assert(is_now_playing(tracks@[i as int]));
            return Some(resp);
        }
        i = i + 1;
    }
    None
}

} // verus!
