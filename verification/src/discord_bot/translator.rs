//! The decisions of the translation commands.
use vstd::prelude::*;
use crate::text::owned;
use crate::notifications::Notification;
use crate::translator::TranslatorInitError;

verus! {

/// The languages `/translate` asks for: `auto` detection and German unless
/// the user chose.
pub fn command_languages(source: Option<String>, target: Option<String>) -> (r: (String, String))
    ensures
        r.0@ == (match source {
            Some(s) => s@,
            None => "auto"@,
        }),
        r.1@ == (match target {
            Some(t) => t@,
            None => "de"@,
        }),
{
    let s = match source {
        Some(s) => s,
        None => owned("auto"),
    };
    let t = match target {
        Some(t) => t,
        None => owned("de"),
    };
    (s, t)
}

/// The answer of `/translate`: `<source> → <target> "<text>"`, where the
/// source is the detected language when the server detected one.
pub fn translation_summary(
    source: &str,
    target: &str,
    detected: Option<&str>,
    translated: &str,
) -> (s: String)
    ensures
        s@ == (match detected {
            Some(d) => d@,
            None => source@,
        }) + " → "@ + target@ + " \""@ + translated@ + "\""@,
{
    let shown = match detected {
        Some(d) => d,
        None => source,
    };
    let mut s = owned(shown);
    s.append(" → ");
    s.append(target);
    s.append(" \"");
    s.append(translated);
    s.append("\"");
    s
}

/// The notification about a translator that could not be made from enabled
/// settings; disabled settings are no failure and notify nobody.
pub fn translator_init_notice(enabled: bool, error: TranslatorInitError) -> (r: Option<
    Notification,
>)
    ensures
        !enabled ==> r is None,
        enabled ==> (r matches Some(n) && n.title@
            == "Discord Bot - Translator Initialization Failed"@ && n.message@
            == "Failed to initialize translator.\n\nError details:\n"@ + (match error {
            TranslatorInitError::Disabled => "Disabled"@,
            TranslatorInitError::MissingUrl => "MissingUrl"@,
            TranslatorInitError::InvalidUrl => "InvalidUrl"@,
        }) + "\n\nTranslation commands will be unavailable."@),
{
    if !enabled {
        return None;
    }
    let mut msg = owned("Failed to initialize translator.\n\nError details:\n");
    let d = error.debug_text();
    msg.append(d.as_str());
    msg.append("\n\nTranslation commands will be unavailable.");
    Some(Notification::new("Discord Bot - Translator Initialization Failed", msg.as_str()))
}

/// The answer when no translator is configured.
pub fn translation_disabled() -> (s: String)
    ensures
        s@ == "Translation is not enabled!"@,
{
    owned("Translation is not enabled!")
}

} // verus!
