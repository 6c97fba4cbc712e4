use kybe_backend::auth::{check_login, hash_password, mail_verification_target, new_account, registration_conflict, verify_password, AuthError};
use kybe_backend::config::types::{Config, GotifyConfig, DiscordConfig, EmailConfig, LastFMConfig, NotificationConfig, TranslatorConfig, WolframAlphaConfig};
use kybe_backend::db::users::User;
use kybe_backend::email::EmailService;
use kybe_backend::external::lastfm::{now_playing, string_to_bool, Artist, Attr, LastFM, Track, INTERVAL_DEFAULT};
use kybe_backend::external::wolframalpha::{WolframAlpha, WolframAlphaRequest};
use kybe_backend::maxmind::city::{City, Continent, Country, Names, Postal, RepresentedCountry, Subdivision};
use kybe_backend::notifications::error::NotificationError as ProviderError;
use kybe_backend::notifications::log::LogNotifier;
use kybe_backend::notifications::notification_types::startup::StartupNotification;
use kybe_backend::notifications::notifications::startup::StartupNotification as StartupEvent;
use kybe_backend::notifications::providers::discord::DiscordNotifier;
use kybe_backend::notifications::providers::gotify::{gotify_outcome, GotifyNotifier};
use kybe_backend::notifications::{Notification, NotificationError, Notifications, Notifier, Provider};
use kybe_backend::prometheus::{custom_metrics, listening_state_value, metric_name, status_label};
use kybe_backend::translator::{detect_query, translate_languages, ApiError, Translator, TranslatorInitError};

#[test]
fn default_config_is_disabled_with_placeholders() {
    let c = Config::default();
    assert!(!c.discord_bot.enable);
    assert_eq!(c.discord_bot.token, "DISCORD_TOKEN");
    assert_eq!(c.discord_bot.admin_id, "921066050009833572");
    assert_eq!(c.discord_bot.translator.url.as_deref(), Some("https://translate.kybe.xyz"));
    assert_eq!(c.maxmind.city, "./config/GeoLite2-City.mmdb");
    assert_eq!(c.maxmind.asn, "./config/GeoLite2-ASN.mmdb");
    assert_eq!(c.lastfm.interval_secs, Some(10));
    assert!(c.logger.file_logger_enabled);
    assert_eq!(c.webserver.api_token, "CHANGE_ME");
    assert_eq!(c.wolfram_alpha.token.as_deref(), Some("APP_ID"));
    assert!(!c.notification.gotify.enabled && !c.notification.discord.enabled);
}

fn notif_config(g: bool, gu: Option<&str>, d: bool, du: Option<&str>) -> NotificationConfig {
    NotificationConfig {
        gotify: GotifyConfig { enabled: g, url: gu.map(|s| s.to_string()) },
        discord: DiscordConfig { enabled: d, url: du.map(|s| s.to_string()) },
    }
}

#[test]
fn notifications_use_enabled_services_with_urls() {
    let n = Notifications::new(&notif_config(true, Some("g"), true, Some("d")));
    assert_eq!(n.notifiers.len(), 2);
    assert!(matches!(&n.notifiers[0], Provider::Gotify(x) if x.url == "g"));
    assert!(matches!(&n.notifiers[1], Provider::Discord(x) if x.url == "d"));
    assert!(Notifications::new(&notif_config(true, None, false, Some("d"))).notifiers.is_empty());
    let n = Notifications::new(&notif_config(false, Some("g"), true, Some("d")));
    assert_eq!(n.notifiers.len(), 1);
    assert!(matches!(&n.notifiers[0], Provider::Discord(_)));
}

#[test]
fn notification_texts() {
    let n = Notification::new("T", "M");
    assert_eq!((n.title.as_str(), n.message.as_str()), ("T", "M"));
    assert_eq!(NotificationError::InvalidConfig("x".into()).to_string(), "Invalid config: x");
    assert_eq!(NotificationError::Transport("x".into()).to_string(), "Transport error: x");
    assert_eq!(NotificationError::Auth("x".into()).to_string(), "Auth error: x");
    assert_eq!(ProviderError::Other("x".into()).to_string(), "Other error: x");
    assert_eq!(LogNotifier::new().name(), "Log");
    assert_eq!(DiscordNotifier::new("u".into()).name(), "Discord");
    assert_eq!(GotifyNotifier::new("u".into()).name(), "Gotify");
}

#[test]
fn startup_notifications() {
    let n = Notification::from(StartupNotification::new(true));
    assert_eq!((n.title.as_str(), n.message.as_str()), ("Backend", "Started"));
    let n = Notification::from(StartupNotification::new(false));
    assert_eq!(n.message, "Starting");
    let n = StartupEvent::new(true).into();
    assert_eq!((n.title.as_str(), n.message.as_str()), ("Backend", "Started"));
    assert_eq!(StartupEvent::new(false).into().message, "Starting");
}

#[test]
fn gotify_status_codes() {
    assert!(gotify_outcome(200, "200 OK", "").is_ok());
    assert!(gotify_outcome(204, "204 No Content", "").is_ok());
    assert!(matches!(gotify_outcome(401, "401 Unauthorized", "no"), Err(NotificationError::Auth(m)) if m == "(401 Unauthorized): no"));
    assert!(matches!(gotify_outcome(403, "403 Forbidden", ""), Err(NotificationError::Auth(_))));
    assert!(matches!(gotify_outcome(400, "400 Bad Request", "b"), Err(NotificationError::InvalidConfig(m)) if m == "(400 Bad Request): b"));
    assert!(matches!(gotify_outcome(500, "500 Internal Server Error", ""), Err(NotificationError::Transport(_))));
}

fn lastfm_config(user: Option<&str>, token: Option<&str>, interval: Option<u8>) -> LastFMConfig {
    LastFMConfig { enable: true, token: token.map(|s| s.to_string()), username: user.map(|s| s.to_string()), interval_secs: interval }
}

#[test]
fn lastfm_needs_user_and_token() {
    assert!(LastFM::new(&lastfm_config(None, Some("t"), None)).is_none());
    assert!(LastFM::new(&lastfm_config(Some(""), Some("t"), None)).is_none());
    assert!(LastFM::new(&lastfm_config(Some("u"), Some(""), None)).is_none());
    let c = LastFM::new(&lastfm_config(Some("u"), Some("t"), None)).unwrap();
    assert_eq!(c.interval_secs, INTERVAL_DEFAULT);
    assert_eq!(c.recent_tracks_url(), "http://ws.audioscrobbler.com/2.0/?method=user.getrecenttracks&user=u&api_key=t&format=json");
    assert_eq!(LastFM::new(&lastfm_config(Some("u"), Some("t"), Some(3))).unwrap().interval_secs, 3);
}

fn track(name: &str, playing: Option<Option<bool>>) -> Track {
    Track {
        artist: Artist { text: format!("artist of {name}") },
        name: name.to_string(),
        url: format!("https://last.fm/{name}"),
        attr: playing.map(|p| Attr { nowplaying: p }),
    }
}

#[test]
fn lastfm_now_playing_is_the_first_marked_track() {
    assert_eq!(string_to_bool(Some("true".into())), Some(true));
    assert_eq!(string_to_bool(Some("TRUE".into())), Some(false));
    assert_eq!(string_to_bool(None), None);
    let tracks = vec![track("a", None), track("b", Some(None)), track("c", Some(Some(true))), track("d", Some(Some(true)))];
    let r = now_playing(&tracks).unwrap();
    assert_eq!((r.artist.as_str(), r.name.as_str(), r.url.as_str()), ("artist of c", "c", "https://last.fm/c"));
    assert!(now_playing(&vec![track("a", Some(Some(false)))]).is_none());
    assert!(now_playing(&vec![]).is_none());
}

fn translator_config(enabled: bool, url: Option<&str>, token: Option<&str>) -> TranslatorConfig {
    TranslatorConfig { enabled, url: url.map(|s| s.to_string()), token: token.map(|s| s.to_string()) }
}

#[test]
fn translator_settings() {
    assert_eq!(Translator::try_from(translator_config(false, Some("https://x.y"), None)).unwrap_err(), TranslatorInitError::Disabled);
    assert_eq!(Translator::try_from(translator_config(true, None, None)).unwrap_err(), TranslatorInitError::MissingUrl);
    assert_eq!(Translator::try_from(translator_config(true, Some("not a url"), None)).unwrap_err(), TranslatorInitError::InvalidUrl);
    assert_eq!(Translator::try_from(translator_config(true, Some("ftp://x.y"), None)).unwrap_err(), TranslatorInitError::InvalidUrl);
    let t = Translator::try_from(translator_config(true, Some("https://translate.kybe.xyz"), Some("  "))).unwrap();
    assert!(t.token.is_none());
    assert_eq!(t.url, "https://translate.kybe.xyz");
    let t = Translator::try_from(translator_config(true, Some("HTTP://x.y"), Some("key"))).unwrap();
    assert_eq!(t.token.as_deref(), Some("key"));
    assert_eq!(t.url, "HTTP://x.y");
    assert_eq!(TranslatorInitError::InvalidUrl.to_string(), "translator url is malformed");
    assert_eq!(TranslatorInitError::MissingUrl.debug_text(), "MissingUrl");
}

#[test]
fn translator_requests() {
    assert_eq!(detect_query("  hallo welt \n"), "hallo welt");
    assert_eq!(translate_languages(" ", ""), ("auto".to_string(), "de".to_string()));
    assert_eq!(translate_languages(" en ", "fr"), ("en".to_string(), "fr".to_string()));
    assert_eq!(ApiError::http_status("400 Bad Request", " bad \n").error, "HTTP 400 Bad Request: bad");
    assert_eq!(ApiError::new("x".into()).error, "x");
}

#[test]
fn wolframalpha_needs_an_enabled_token() {
    let w = WolframAlpha::new(WolframAlphaConfig { enabled: false, token: Some("t".into()) });
    assert!(w.token.is_none());
    assert_eq!(w.request("2+2".into()).unwrap_err(), "WolframAlpha has no token set!");
    let w = WolframAlpha::new(WolframAlphaConfig { enabled: true, token: Some("t".into()) });
    let r = w.request("2+2".into()).unwrap();
    assert_eq!((r.input.as_str(), r.appid.as_str(), r.format.as_str(), r.output.as_str()), ("2+2", "t", "plaintext", "json"));
    let r = WolframAlphaRequest::new("q".into(), "k".into());
    assert_eq!(r.format, "plaintext");
}

#[test]
fn maxmind_parts_are_empty_when_default() {
    assert!(Names::default().is_empty());
    assert!(!Names { german: None, english: Some("Berlin".into()) }.is_empty());
    assert!(City::default().is_empty());
    assert!(!City { geoname_id: Some(1), names: Names::default() }.is_empty());
    assert!(!City { geoname_id: None, names: Names { german: Some("x".into()), english: None } }.is_empty());
    assert!(Continent::default().is_empty());
    assert!(!Country { geoname_id: None, is_in_european_union: Some(false), iso_code: None }.is_empty());
    assert!(Postal::default().is_empty());
    assert!(RepresentedCountry::default().is_empty());
    assert!(Subdivision::default().is_empty());
    assert!(!Subdivision { geoname_id: None, iso_code: Some("BE".into()), names: Names::default() }.is_empty());
}

#[test]
fn metric_names_and_values() {
    assert_eq!(metric_name("x"), "kybe_backend_x");
    let m = custom_metrics();
    assert_eq!(m.len(), 5);
    assert_eq!(m[0], ("kybe_backend_uptime_seconds".to_string(), "Application uptime in seconds".to_string()));
    assert_eq!(m[3].0, "kybe_backend_lastfm_listening_state");
    assert_eq!(listening_state_value(true), 1);
    assert_eq!(listening_state_value(false), 0);
    assert_eq!(status_label(404).status, 404);
}

#[test]
fn email_service_takes_the_account() {
    let s = EmailService::new(&EmailConfig { enable: true, email: "a@b.c".into(), password: "p".into(), server: "smtp.b.c".into(), port: 465 });
    assert_eq!((s.email.as_str(), s.password.as_str(), s.server.as_str(), s.port), ("a@b.c", "p", "smtp.b.c", 465));
}

#[test]
fn registered_accounts_log_in_with_their_password() {
    let u = new_account("kybe".into(), "k@y.be".into(), "hunter2").ok().unwrap();
    assert_eq!(u.username, "kybe");
    assert!(!u.email_verified);
    assert!(verify_password("hunter2", &u.password_hash));
    assert!(!verify_password("hunter3", &u.password_hash));
    let id = u.id;
    let u2 = User { password_hash: u.password_hash.clone(), ..User::default() };
    assert!(matches!(check_login(Some(u), "hunter2"), Ok(i) if i == id));
    assert!(matches!(check_login(Some(u2), "wrong"), Err(AuthError::InvalidCredentials)));
    assert!(matches!(check_login(None, "hunter2"), Err(AuthError::InvalidCredentials)));
    let bad = User { password_hash: "not a hash".into(), ..User::default() };
    assert!(matches!(check_login(Some(bad), ""), Err(AuthError::InvalidCredentials)));
    assert!(verify_password("x", &hash_password("x").ok().unwrap()));
}

#[test]
fn registration_conflicts_and_errors() {
    assert!(matches!(registration_conflict(true, true), Some(AuthError::UsernameTaken)));
    assert!(matches!(registration_conflict(false, true), Some(AuthError::EmailTaken)));
    assert!(registration_conflict(false, false).is_none());
    assert_eq!(AuthError::UsernameTaken.to_string(), "username already taken");
    assert_eq!(AuthError::EmailTaken.to_string(), "email already taken");
    assert_eq!(AuthError::InvalidCredentials.to_string(), "invalid crendetials");
}

#[test]
fn verification_mails() {
    let r = mail_verification_target(Some(" 67e55044-10b1-426f-9247-bb680e5fe0c8 \n".into()), Some(" a@b.c ".into()));
    assert_eq!(r, Ok(Some((0x67e5504410b1426f9247bb680e5fe0c8, "a@b.c".to_string()))));
    assert_eq!(mail_verification_target(None, Some("a@b.c".into())), Ok(None));
    assert_eq!(mail_verification_target(Some("x".into()), None), Ok(None));
    let message = uuid::Uuid::parse_str("x").unwrap_err().to_string();
    assert_eq!(mail_verification_target(Some("x".into()), Some("a".into())), Err(message));
}
