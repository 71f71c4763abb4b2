//! Reminders over chat: a command grammar, calendar-aware recurrence, a trust
//! gate for conversations, and the decisions behind executing commands and
//! delivering what is due.
//!
//! Nothing here sends, stores or reads the clock: transports, stores and
//! clocks live with the caller, which performs the effects this crate decides
//! on and reports their outcomes.

pub mod bot;
pub mod config;
pub mod controller;
pub mod db;
pub mod logging;
pub mod text;
