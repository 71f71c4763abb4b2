//! The rows of the store.

pub mod reminders;
pub mod trusted_chats;
