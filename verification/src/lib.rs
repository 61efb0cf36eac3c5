//! Links voice channels of a guild to companion discussion threads.
//!
//! The crate holds the decisions of the linking service: which channels are
//! managed, the two-way registry of voice channels and threads, and the
//! workflows that open, retitle and archive a thread or rename a voice
//! channel on its manager's behalf. The platform itself is reached by the
//! caller: every workflow hands out one [`platform::Request`] at a time and
//! is resumed with the platform's [`platform::Reply`].

pub mod app_config;
pub mod channel;
pub mod registry;
pub mod platform;
pub mod interaction;
pub mod wording;
pub mod workflow;
pub mod event_handler;
