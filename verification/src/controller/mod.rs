//! From a text to an action, from an action to its effects, and from what is
//! due to what is sent.
//!
//! Nothing here sends or stores. A text is read as an action; the action
//! says what to ask of the store and, from the answer, what to reply. A
//! round of notifications goes through the reminders that are due one by
//! one: each is sent first, and only once it was sent is the store asked to
//! move it on or to drop it. What fails is kept for the report of the round
//! and stops nothing.

pub mod action;

use vstd::prelude::*;

use crate::bot::BotError;
use crate::config::{one_of, Messages};
use crate::controller::action::{all_wf, ExecutionError, Reply};
use crate::db::models::reminders::Reminder;
use crate::db::types::ChatId;
use crate::db::{Error as DbError, Request};

verus! {

/// The seconds from one round of notifications to the next.
pub const NOTIFICATOR_INTERVAL: u64 = 5 * 60;

/// What to reply to a text that is no command: one of the phrases for that.
pub fn misunderstanding(chat_id: ChatId, messages: &Messages) -> (reply: Reply)
    requires
        messages.misunderstanding_messages@.len() > 0,
    ensures
        reply.chat_id == chat_id,
        one_of(messages.misunderstanding_messages@, reply.text@),
{
    Reply { chat_id, text: messages.misunderstanding_message().to_owned() }
}

/// Whether `request` is what the store is asked once `reminder` was sent: to
/// move it to the moment one interval after its due moment if it repeats,
/// else to drop it.
pub open spec fn completes(reminder: Reminder, request: Request) -> bool {
    match reminder.recurrence {
        Some(recurrence) => {
            &&& request matches Request::RecurReminder { reminder_id, due }
            &&& reminder_id == reminder.id
            &&& due.wf()
            &&& recurrence.advanced(reminder.due@) == Some(due@)
        },
        None => request == (Request::DeleteReminder { reminder_id: reminder.id }),
    }
}

/// Whether there is something to ask the store once `reminder` was sent:
/// there is, unless the reminder repeats and the moment one interval after
/// its due moment lies after the last year a timestamp can lie in.
pub open spec fn can_complete(reminder: Reminder) -> bool {
    reminder.recurrence matches Some(recurrence) ==> recurrence.advanced(reminder.due@) is Some
}

/// What the store is asked once `reminder` was sent, if there is something
/// to ask.
pub fn reminder_done(reminder: &Reminder) -> (request: Option<Request<'static>>)
    requires
        reminder.due.wf(),
    ensures
        match request {
            Some(request) => completes(*reminder, request),
            None => !can_complete(*reminder),
        },
{
    match &reminder.recurrence {
        Some(recurrence) => match recurrence.checked_advance(reminder.due) {
            Some(due) => Some(Request::RecurReminder { reminder_id: reminder.id, due }),
            None => None,
        },
        None => Some(Request::DeleteReminder { reminder_id: reminder.id }),
    }
}

/// What a round of notifications wants done next.
#[derive(Debug, Clone, Copy, PartialEq, Eq, Hash)]
pub enum Step<'a> {
    /// To send `message` to the conversation.
    Send { chat_id: ChatId, message: &'a str },
    /// To ask the store.
    Store(Request<'a>),
    /// Nothing: the round is over.
    Done,
}

/// What became of a step.
#[derive(Debug, PartialEq, Eq, Hash)]
pub enum Outcome {
    /// The transport sent the message, or failed to.
    Sent(Result<(), BotError>),
    /// The store did what it was asked and says whether the reminder was
    /// there, or failed to.
    Stored(Result<bool, DbError>),
}

/// A round of notifications: the reminders that are due, how far the round
/// has come, and what has failed so far.
pub struct Notifications {
    reminders: Vec<Reminder>,
    position: usize,
    sent: bool,
    errors: Vec<ExecutionError>,
}

/// Whether each of `reminders` has a well-formed due moment and something to
/// ask the store once it was sent.
pub open spec fn all_completable(reminders: Seq<Reminder>) -> bool {
    forall|i: int|
        0 <= i < reminders.len() ==> (#[trigger] reminders[i]).due.wf() && can_complete(
            reminders[i],
        )
}

impl Notifications {
    /// The reminders of the round, in the order in which they are gone
    /// through.
    pub closed spec fn reminders(self) -> Seq<Reminder> {
        self.reminders@
    }

    /// How many reminders the round is through with.
    pub closed spec fn position(self) -> nat {
        self.position as nat
    }

    /// Whether the reminder in hand was sent, so that the store is to be
    /// asked next.
    pub closed spec fn sent(self) -> bool {
        self.sent
    }

    /// What has failed so far, in the order in which it failed.
    pub closed spec fn errors(self) -> Seq<ExecutionError> {
        self.errors@
    }

    /// Whether the round is in order: it is through with no more reminders
    /// than there are, a reminder that was sent is in hand, and for each
    /// reminder there is something to ask the store.
    pub open spec fn wf(self) -> bool {
        &&& self.position() <= self.reminders().len()
        &&& self.sent() ==> self.position() < self.reminders().len()
        &&& all_completable(self.reminders())
    }

    /// Whether the round is over.
    pub open spec fn done(self) -> bool {
        self.position() == self.reminders().len()
    }

    /// The most steps that the round can still want done: two for each
    /// reminder that it is not through with, less one if the reminder in hand
    /// was sent.
    pub open spec fn steps_left(self) -> int {
        2 * (self.reminders().len() - self.position()) - (if self.sent() {
            1int
        } else {
            0int
        })
    }

    /// What the round wants done next: nothing if it is over; else to send
    /// the message of the reminder in hand to its conversation; and once
    /// that was sent, to ask the store what completes the reminder.
    pub fn next(&self) -> (step: Step<'_>)
        requires
            self.wf(),
        ensures
            match step {
                Step::Done => self.done(),
                Step::Send { chat_id, message } => {
                    &&& !self.done()
                    &&& !self.sent()
                    &&& chat_id == self.reminders()[self.position() as int].chat
                    &&& message@ == self.reminders()[self.position() as int].message@
                },
                Step::Store(request) => {
                    &&& !self.done()
                    &&& self.sent()
                    &&& completes(self.reminders()[self.position() as int], request)
                },
            },
    {
        if self.position >= self.reminders.len() {
            return Step::Done;
        }
        let reminder = &self.reminders[self.position];
        if !self.sent {
            Step::Send { chat_id: reminder.chat, message: reminder.message.as_str() }
        } else {
            match reminder_done(reminder) {
                Some(request) => Step::Store(request),
                None => {
                    assert(self.reminders()[self.position() as int].due.wf());
                    vstd::pervasive::unreached()
                },
            }
        }
    }

    /// Takes note of what became of the step that the round wanted done. A
    /// message that was sent leaves its reminder in hand, for the store. A
    /// message that was not sent is a failure of the transport, and the
    /// round goes on to the next reminder without a word to the store. What
    /// the store did ends the work on the reminder in hand: a failure of the
    /// store is kept as such, and that the reminder was not there is none.
    pub fn record(&mut self, outcome: Outcome)
        requires
            old(self).wf(),
            !old(self).done(),
            old(self).sent() <==> outcome is Stored,
        ensures
            final(self).wf(),
            final(self).reminders() == old(self).reminders(),
            0 <= final(self).steps_left() < old(self).steps_left(),
            match outcome {
                Outcome::Sent(Ok(())) => {
                    &&& final(self).position() == old(self).position()
                    &&& final(self).sent()
                    &&& final(self).errors() == old(self).errors()
                },
                Outcome::Sent(Err(error)) => {
                    &&& final(self).position() == old(self).position() + 1
                    &&& !final(self).sent()
                    &&& final(self).errors() == old(self).errors().push(ExecutionError::Bot(error))
                },
                Outcome::Stored(Ok(_)) => {
                    &&& final(self).position() == old(self).position() + 1
                    &&& !final(self).sent()
                    &&& final(self).errors() == old(self).errors()
                },
                Outcome::Stored(Err(error)) => {
                    &&& final(self).position() == old(self).position() + 1
                    &&& !final(self).sent()
                    &&& final(self).errors() == old(self).errors().push(ExecutionError::Db(error))
                },
            },
    {
        let count = self.reminders.len();
        assert(self.position < count);
        match outcome {
            Outcome::Sent(Ok(())) => {
                self.sent = true;
            },
            Outcome::Sent(Err(error)) => {
                self.errors.push(ExecutionError::Bot(error));
                self.position += 1;
            },
            Outcome::Stored(Ok(_)) => {
                self.sent = false;
                self.position += 1;
            },
            Outcome::Stored(Err(error)) => {
                self.errors.push(ExecutionError::Db(error));
                self.sent = false;
                self.position += 1;
            },
        }
    }

    /// The report of the round once it is over: that nothing failed, or all
    /// that failed.
    pub fn finish(self) -> (report: Result<(), Vec<ExecutionError>>)
        requires
            self.wf(),
            self.done(),
        ensures
            match report {
                Ok(()) => self.errors().len() == 0,
                Err(errors) => errors@.len() > 0 && errors@ == self.errors(),
            },
    {
        if self.errors.len() == 0 {
            Ok(())
        } else {
            Err(self.errors)
        }
    }
}

/// Begins a round of notifications with what the store gave as the
/// reminders that are due. If the store failed, the round is over at once
/// and that failure is all it reports. There is no round, and `None`, where
/// for one of the reminders there would be nothing to ask the store once it
/// was sent.
pub fn run_notifications(due: Result<Vec<Reminder>, DbError>) -> (round: Option<Notifications>)
    requires
        due matches Ok(reminders) ==> all_wf(reminders@),
    ensures
        match due {
            Ok(reminders) => match round {
                Some(round) => {
                    &&& round.wf()
                    &&& round.reminders() == reminders@
                    &&& round.position() == 0
                    &&& !round.sent()
                    &&& round.errors().len() == 0
                },
                None => !all_completable(reminders@),
            },
            Err(error) => {
                &&& round matches Some(round)
                &&& round.wf()
                &&& round.done()
                &&& round.errors() == seq![ExecutionError::Db(error)]
            },
        },
{
    match due {
        Ok(reminders) => {
            let mut i: usize = 0;
            while i < reminders.len()
                invariant
                    due == Ok::<Vec<Reminder>, DbError>(reminders),
                    i <= reminders@.len(),
                    all_wf(reminders@),
                    forall|k: int| 0 <= k < i ==> can_complete(#[trigger] reminders@[k]),
                decreases reminders@.len() - i,
            {
                if reminder_done(&reminders[i]).is_none() {
                    assert(!can_complete(reminders@[i as int]));
                    return None;
                }
                i += 1;
            }
            Some(Notifications { reminders, position: 0, sent: false, errors: Vec::new() })
        },
        Err(error) => {
            let mut errors: Vec<ExecutionError> = Vec::new();
            errors.push(ExecutionError::Db(error));
            Some(Notifications { reminders: Vec::new(), position: 0, sent: false, errors })
        },
    }
}

} // verus!
