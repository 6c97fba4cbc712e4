//! Notifications posted to a Discord webhook.
use vstd::prelude::*;
use crate::notifications::Notifier;

verus! {

#[derive(Clone, Debug)]
pub struct DiscordNotifier {
    pub url: String,
}

impl DiscordNotifier {
    pub fn new(url: String) -> (n: DiscordNotifier)
        ensures
            n.url == url,
    {
        DiscordNotifier { url }
    }
}

impl Notifier for DiscordNotifier {
    fn name(&self) -> (r: &'static str)
        ensures
            r@ == "Discord"@,
    {
        "Discord"
    }
}

} // verus!
