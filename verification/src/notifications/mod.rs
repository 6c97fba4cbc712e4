//! Notifications about the state of the backend, and the services that
//! deliver them.
pub mod error;
pub mod log;
pub mod notification_types;
pub mod notifications;
pub mod providers;

use vstd::prelude::*;
use crate::config::types::NotificationConfig;
use crate::notifications::providers::discord::DiscordNotifier;
use crate::notifications::providers::gotify::GotifyNotifier;
use crate::text::{concat2, owned};

verus! {

/// Why a notification could not be delivered.
#[derive(Clone, Debug)]
pub enum NotificationError {
    InvalidConfig(String),
    Transport(String),
    Auth(String),
}

/// The text that the error displays.
pub open spec fn notification_error_text(e: NotificationError) -> Seq<char> {
    match e {
        NotificationError::InvalidConfig(m) => "Invalid config: "@ + m@,
        NotificationError::Transport(m) => "Transport error: "@ + m@,
        NotificationError::Auth(m) => "Auth error: "@ + m@,
    }
}

impl NotificationError {
    /// The text the error displays (its `Display`).
    pub fn to_string(&self) -> (s: String)
        ensures
            s@ == notification_error_text(*self),
    {
        match self {
            NotificationError::InvalidConfig(m) => concat2("Invalid config: ", m.as_str()),
            NotificationError::Transport(m) => concat2("Transport error: ", m.as_str()),
            NotificationError::Auth(m) => concat2("Auth error: ", m.as_str()),
        }
    }
}

/// A service that delivers notifications; delivery itself is the caller's
/// I/O, the service is known by its name.
pub trait Notifier {
    /// Name to identify the Notifier
    fn name(&self) -> &'static str;
}

/// A message with a title.
#[derive(Clone, Debug)]
pub struct Notification {
    pub title: String,
    pub message: String,
}

impl Notification {
    pub fn new(title: &str, message: &str) -> (n: Notification)
        ensures
            n.title@ == title@,
            n.message@ == message@,
    {
        Notification { title: owned(title), message: owned(message) }
    }
}

/// A service that notifications are sent to.
#[derive(Clone, Debug)]
pub enum Provider {
    Gotify(GotifyNotifier),
    Discord(DiscordNotifier),
}

/// The services that receive every notification.
#[derive(Clone, Debug)]
pub struct Notifications {
    pub notifiers: Vec<Provider>,
}

/// The services that a configuration enables: Gotify, then Discord, each
/// only when it is enabled and has a URL.
pub open spec fn configured_providers(config: NotificationConfig) -> Seq<Provider> {
    let g: Seq<Provider> = if config.gotify.enabled && config.gotify.url is Some {
        seq![Provider::Gotify(GotifyNotifier { url: config.gotify.url->0 })]
    } else {
        seq![]
    };
    let d: Seq<Provider> = if config.discord.enabled && config.discord.url is Some {
        seq![Provider::Discord(DiscordNotifier { url: config.discord.url->0 })]
    } else {
        seq![]
    };
    g + d
}

impl Notifications {
    pub fn new(config: &NotificationConfig) -> (n: Notifications)
        ensures
            n.notifiers@ == configured_providers(*config),
    {
        let mut notifiers: Vec<Provider> = Vec::new();
        if config.gotify.enabled {
            match &config.gotify.url {
                Some(url) => {
                    notifiers.push(Provider::Gotify(GotifyNotifier::new(url.clone())));
                },
                None => {},
            }
        }
        let ghost after_gotify = notifiers@;
        if config.discord.enabled {
            match &config.discord.url {
                Some(url) => {
                    notifiers.push(Provider::Discord(DiscordNotifier::new(url.clone())));
                },
                None => {},
            }
        }
        assert(notifiers@ =~= configured_providers(*config));
        Notifications { notifiers }
    }
}

/// At most one service of each kind receives notifications, and none unless
/// it is enabled and has a URL.
pub proof fn lemma_configured_providers(config: NotificationConfig)
    ensures
        configured_providers(config).len() <= 2,
        (exists|i: int|
            0 <= i < configured_providers(config).len() && configured_providers(config)[i] is Gotify)
            <==> (config.gotify.enabled && config.gotify.url is Some),
        (exists|i: int|
            0 <= i < configured_providers(config).len() && configured_providers(config)[i] is Discord)
            <==> (config.discord.enabled && config.discord.url is Some),
{
    let p = configured_providers(config);
    if config.gotify.enabled && config.gotify.url is Some {
        assert(p[0] is Gotify);
    }
    if config.discord.enabled && config.discord.url is Some {
        assert(p[p.len() - 1] is Discord);
    }
}


/// Each configured service receives every notification exactly once: there
/// is one Gotify provider when Gotify is enabled with a URL and none
/// otherwise, likewise for Discord, nothing else, and each provider carries
/// the URL of its own settings.
pub proof fn lemma_each_service_once(config: NotificationConfig)
    ensures
        configured_providers(config).filter(|p: Provider| p is Gotify).len() == (if config.gotify.enabled
            && config.gotify.url is Some {
            1int
        } else {
            0int
        }),
        configured_providers(config).filter(|p: Provider| p is Discord).len() == (
        if config.discord.enabled && config.discord.url is Some {
            1int
        } else {
            0int
        }),
        configured_providers(config).len() == configured_providers(config).filter(
            |p: Provider| p is Gotify,
        ).len() + configured_providers(config).filter(|p: Provider| p is Discord).len(),
        forall|i: int|
            0 <= i < configured_providers(config).len() ==> match #[trigger] configured_providers(
                config,
            )[i] {
                Provider::Gotify(n) => config.gotify.url == Some(n.url),
                Provider::Discord(n) => config.discord.url == Some(n.url),
            },
{
    reveal_with_fuel(Seq::filter, 3);
    let p = configured_providers(config);
    let isg = |q: Provider| q is Gotify;
    let isd = |q: Provider| q is Discord;
    let g: Seq<Provider> = if config.gotify.enabled && config.gotify.url is Some {
        seq![Provider::Gotify(GotifyNotifier { url: config.gotify.url->0 })]
    } else {
        seq![]
    };
    let d: Seq<Provider> = if config.discord.enabled && config.discord.url is Some {
        seq![Provider::Discord(DiscordNotifier { url: config.discord.url->0 })]
    } else {
        seq![]
    };
    assert(p == g + d);
    Seq::filter_distributes_over_add(g, d, isg);
    Seq::filter_distributes_over_add(g, d, isd);
    assert(g.filter(isg).len() == g.len()) by {
        if g.len() > 0 {
            assert(g.drop_last() =~= Seq::<Provider>::empty());
        }
    }
    assert(d.filter(isd).len() == d.len()) by {
        if d.len() > 0 {
            assert(d.drop_last() =~= Seq::<Provider>::empty());
        }
    }
    assert(g.filter(isd).len() == 0) by {
        if g.len() > 0 {
            assert(g.drop_last() =~= Seq::<Provider>::empty());
        }
    }
    assert(d.filter(isg).len() == 0) by {
        if d.len() > 0 {
            assert(d.drop_last() =~= Seq::<Provider>::empty());
        }
    }
}

} // verus!
