//! Core logic of the kybe backend: configuration, command decisions of the
//! Discord bot, trace records and the text formats it produces.
pub mod text;
pub mod num;
pub mod db;
pub mod config;
pub mod notifications;
pub mod discord_bot;
pub mod external;
pub mod cataas;
pub mod translator;
pub mod maxmind;
pub mod email;
pub mod prometheus;
pub mod auth;
