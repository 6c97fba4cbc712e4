//! The services that notifications are delivered to.
pub mod discord;
pub mod gotify;
