//! What is persisted: the value types of a stored row and the rows themselves.
//!
//! The store itself lives with the caller. It is asked to do what a
//! [`Request`] says and answers with an [`Answer`] or an [`Error`].

pub mod models;
pub mod types;

use vstd::prelude::*;

use crate::db::models::reminders::{NewReminder, Reminder};
use crate::db::types::{ChatId, DueTimestamp};

verus! {

/// Why the store could not do what it was asked.
#[derive(Debug, Clone, PartialEq, Eq, Hash)]
pub struct Error {
    pub message: String,
}

/// What the store is asked to do.
#[derive(Debug, Clone, Copy, PartialEq, Eq, Hash)]
pub enum Request<'a> {
    /// To hold a new reminder.
    NewReminder(NewReminder<'a>),
    /// To give the reminders of a conversation.
    ChatReminders { chat_id: ChatId },
    /// To drop a reminder, if it is one of the conversation.
    DeleteChatReminder { reminder_id: i32, chat_id: ChatId },
    /// To move a reminder to a new due moment.
    RecurReminder { reminder_id: i32, due: DueTimestamp },
    /// To drop a reminder.
    DeleteReminder { reminder_id: i32 },
}

/// What the store answers.
#[derive(Debug, Clone, PartialEq, Eq, Hash)]
pub enum Answer {
    /// The new reminder is held.
    Stored,
    /// The reminders asked for, in the order of the store.
    Reminders(Vec<Reminder>),
    /// Whether there was a reminder to move or to drop.
    Found(bool),
}

} // verus!
