//! The client of a LibreTranslate server: its settings, the languages it is
//! asked to translate between and the errors it reports.
use vstd::prelude::*;
use crate::config::types::TranslatorConfig;
use crate::text::{is_blank, is_blank_str, trim, trim_spec, owned, str_eq};

verus! {

/// What `reqwest::Url::parse` makes of a text: the URL's scheme when the
/// text is an absolute URL, nothing when it does not parse.
pub uninterp spec fn url_parse_scheme(s: Seq<char>) -> Option<Seq<char>>;

/// `reqwest::Url::parse(s)` followed by `Url::scheme`: the scheme of the
/// parsed URL, or nothing when the text does not parse.  The contract ties
/// the outcome to the text through `url_parse_scheme`.
#[verifier::external_body]
pub fn parse_url_scheme(s: &str) -> (r: Option<String>)
    ensures
        match r {
            None => url_parse_scheme(s@) is None,
            Some(scheme) => url_parse_scheme(s@) == Some(scheme@),
        },
{
    match reqwest::Url::parse(s) {
        Ok(u) => Some(u.scheme().to_string()),
        Err(_) => None,
    }
}

/// The client's settings: the server's address (a URL that parses with an
/// `http` or `https` scheme) and the API key, if any.
#[derive(Debug)]
pub struct Translator {
    pub url: String,
    pub token: Option<String>,
}

/// The API key that is sent: a set key that is not blank.
pub open spec fn effective_token(token: Option<String>) -> Option<String> {
    match token {
        Some(t) => if is_blank(t@) {
            None
        } else {
            Some(t)
        },
        None => None,
    }
}

/// Why no translator could be made from the settings.
#[derive(PartialEq, Eq, Structural, Clone, Copy, Debug)]
pub enum TranslatorInitError {
    Disabled,
    MissingUrl,
    InvalidUrl,
}

impl TranslatorInitError {
    /// The text the error displays.
    pub fn to_string(&self) -> (s: String)
        ensures
            s@ == (match *self {
                TranslatorInitError::Disabled => "translator is disabled"@,
                TranslatorInitError::MissingUrl => "translator url is missing"@,
                TranslatorInitError::InvalidUrl => "translator url is malformed"@,
            }),
    {
        match self {
            TranslatorInitError::Disabled => owned("translator is disabled"),
            TranslatorInitError::MissingUrl => owned("translator url is missing"),
            TranslatorInitError::InvalidUrl => owned("translator url is malformed"),
        }
    }
}

impl TranslatorInitError {
    /// The pretty `Debug` text of the error: the name of its kind.
    pub fn debug_text(&self) -> (s: String)
        ensures
            s@ == (match *self {
                TranslatorInitError::Disabled => "Disabled"@,
                TranslatorInitError::MissingUrl => "MissingUrl"@,
                TranslatorInitError::InvalidUrl => "InvalidUrl"@,
            }),
    {
        match self {
            TranslatorInitError::Disabled => owned("Disabled"),
            TranslatorInitError::MissingUrl => owned("MissingUrl"),
            TranslatorInitError::InvalidUrl => owned("InvalidUrl"),
        }
    }
}

/// A scheme the translator accepts.
pub open spec fn is_http_scheme(s: Seq<char>) -> bool {
    s == "http"@ || s == "https"@
}

/// The outcome of making a translator from the settings, given what the URL
/// parser makes of the URL.
pub open spec fn translator_outcome(config: TranslatorConfig) -> Result<(), TranslatorInitError> {
    if !config.enabled {
        Err(TranslatorInitError::Disabled)
    } else {
        match config.url {
            None => Err(TranslatorInitError::MissingUrl),
            Some(u) => match url_parse_scheme(u@) {
                Some(s) => if is_http_scheme(s) {
                    Ok(())
                } else {
                    Err(TranslatorInitError::InvalidUrl)
                },
                None => Err(TranslatorInitError::InvalidUrl),
            },
        }
    }
}

impl Translator {
    pub fn new(url: String, token: Option<String>) -> (t: Translator)
        ensures
            t.url == url,
            t.token == effective_token(token),
    {
        let token = match token {
            Some(t) => if is_blank_str(t.as_str()) {
                None
            } else {
                Some(t)
            },
            None => None,
        };
        Translator { url, token }
    }

    /// The translator for the server address `url`, given the scheme the URL
    /// parser read from it (nothing when it does not parse): only `http` and
    /// `https` servers are accepted.
    pub fn from_parsed_url(url: String, scheme: Option<String>, token: Option<String>) -> (r:
        Result<Translator, TranslatorInitError>)
        ensures
            match scheme {
                Some(s) => if is_http_scheme(s@) {
                    r matches Ok(t) && t.url == url && t.token == effective_token(token)
                } else {
                    r == Err::<Translator, TranslatorInitError>(TranslatorInitError::InvalidUrl)
                },
                None => r == Err::<Translator, TranslatorInitError>(
                    TranslatorInitError::InvalidUrl,
                ),
            },
    {
        match scheme {
            None => Err(TranslatorInitError::InvalidUrl),
            Some(scheme) => {
                if !str_eq(scheme.as_str(), "http") && !str_eq(scheme.as_str(), "https") {
                    Err(TranslatorInitError::InvalidUrl)
                } else {
                    Ok(Translator::new(url, token))
                }
            },
        }
    }

    /// The translator the settings describe (`TryFrom<TranslatorConfig>`):
    /// disabled settings, a missing URL, and a URL that does not parse or is
    /// not `http`/`https` are refused.
    pub fn try_from(value: TranslatorConfig) -> (r: Result<Translator, TranslatorInitError>)
        ensures
            match (r, translator_outcome(value)) {
                (Ok(t), Ok(())) => t.url@ == value.url->0@ && t.token == effective_token(
                    value.token,
                ),
                (Err(e), Err(f)) => e == f,
                _ => false,
            },
    {
        if !value.enabled {
            return Err(TranslatorInitError::Disabled);
        }
        match value.url {
            None => Err(TranslatorInitError::MissingUrl),
            Some(u) => {
                let scheme = parse_url_scheme(u.as_str());
                Translator::from_parsed_url(u, scheme, value.token)
            },
        }
    }
}

/// The text that is sent for language detection: the query, trimmed.
pub fn detect_query(query: &str) -> (q: String)
    ensures
        q@ == trim_spec(query@),
{
    trim(query)
}

/// The source and target languages that are sent for a translation: each
/// trimmed, with `auto` for a blank source and `de` for a blank target.
pub fn translate_languages(source: &str, target: &str) -> (r: (String, String))
    ensures
        r.0@ == (if trim_spec(source@).len() == 0 {
            "auto"@
        } else {
            trim_spec(source@)
        }),
        r.1@ == (if trim_spec(target@).len() == 0 {
            "de"@
        } else {
            trim_spec(target@)
        }),
{
    let s = trim(source);
    let t = trim(target);
    let s = if crate::text::char_count(s.as_str()) == 0 {
        owned("auto")
    } else {
        s
    };
    let t = if crate::text::char_count(t.as_str()) == 0 {
        owned("de")
    } else {
        t
    };
    (s, t)
}

/// A language the server supports, and the languages it translates it to.
#[derive(Clone, Debug)]
pub struct LanguagesResponse {
    pub code: String,
    pub name: String,
    pub targets: Vec<String>,
}

/// An error reported by the server or met while talking to it.
#[derive(Clone, Debug)]
pub struct ApiError {
    pub error: String,
}

impl ApiError {
    pub fn new(error: String) -> (e: ApiError)
        ensures
            e.error == error,
    {
        ApiError { error }
    }

    /// The error for a translation the server refused: the HTTP status and
    /// the trimmed body of the answer.
    pub fn http_status(status: &str, body: &str) -> (e: ApiError)
        ensures
            e.error@ == "HTTP "@ + status@ + ": "@ + trim_spec(body@),
    {
        let mut m = owned("HTTP ");
        m.append(status);
        m.append(": ");
        let b = trim(body);
        m.append(b.as_str());
        ApiError { error: m }
    }
}

} // verus!
