//! Clients of outside web services: what they ask and what they make of
//! the answers.
pub mod cataas;
pub mod lastfm;
pub mod wolframalpha;
