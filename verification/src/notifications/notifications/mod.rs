//! Notifications of particular events.
pub mod startup;
