//! Sending mail: the account the backend sends from.
use vstd::prelude::*;
use crate::config::types::EmailConfig;

verus! {

/// The mail account and server that mail is sent through.
#[derive(Clone, Debug)]
pub struct EmailService {
    pub email: String,
    pub password: String,
    pub server: String,
    pub port: u16,
}

impl EmailService {
    pub fn new(config: &EmailConfig) -> (s: EmailService)
        ensures
            s.email == config.email,
            s.password == config.password,
            s.server == config.server,
            s.port == config.port,
    {
        EmailService {
            email: config.email.clone(),
            password: config.password.clone(),
            server: config.server.clone(),
            port: config.port,
        }
    }
}

} // verus!
