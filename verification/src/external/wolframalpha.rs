//! WolframAlpha's query API: the request and the parts of the answer that
//! the bot shows.
use vstd::prelude::*;
use crate::config::types::WolframAlphaConfig;
use crate::text::owned;

verus! {

pub const WOLFRAMALPHA_URL: &'static str = "http://api.wolframalpha.com/v2/query";

/// One titled part of an answer.
#[derive(Clone, Debug)]
pub struct Pod {
    pub title: String,
    pub subpods: Vec<SubPod>,
}

#[derive(Clone, Debug)]
pub struct SubPod {
    pub plaintext: String,
}

/// The query parameters of a request: the question, the app id, and the
/// answer wanted as plain text in JSON.
#[derive(Clone, Debug)]
pub struct WolframAlphaRequest {
    pub input: String,
    pub appid: String,
    pub format: String,
    pub output: String,
}

impl WolframAlphaRequest {
    pub fn new(query: String, token: String) -> (r: WolframAlphaRequest)
        ensures
            r.input == query,
            r.appid == token,
            r.format@ == "plaintext"@,
            r.output@ == "json"@,
    {
        WolframAlphaRequest {
            input: query,
            appid: token,
            format: owned("plaintext"),
            output: owned("json"),
        }
    }
}

/// The client's settings: the app id, kept only when the service is
/// enabled.
#[derive(Clone, Debug)]
pub struct WolframAlpha {
    pub token: Option<String>,
}

impl WolframAlpha {
    pub fn new(config: WolframAlphaConfig) -> (w: WolframAlpha)
        ensures
            w.token == (if config.enabled {
                config.token
            } else {
                None
            }),
    {
        WolframAlpha { token: if !config.enabled { None } else { config.token } }
    }

    /// The request for a question, or the error when no app id is set (the
    /// first step of `query`).
    pub fn request(&self, query: String) -> (r: Result<WolframAlphaRequest, String>)
        ensures
            match self.token {
                Some(t) => r matches Ok(req) && req.input == query && req.appid@ == t@
                    && req.format@ == "plaintext"@ && req.output@ == "json"@,
                None => r matches Err(m) && m@ == "WolframAlpha has no token set!"@,
            },
    {
        match &self.token {
            Some(t) => Ok(WolframAlphaRequest::new(query, t.clone())),
            None => Err(owned("WolframAlpha has no token set!")),
        }
    }
}

} // verus!
