//! The actions that a text can ask for.

pub mod parser;
pub mod proofs;

use vstd::prelude::*;

use crate::bot::BotError;
use crate::config::{one_of, Commands, Messages};
use crate::controller::action::parser::{parsed, ParseError};
use crate::db::models::reminders::{summary_text, NewReminder, Reminder};
use crate::db::types::{ChatId, DueTimestamp, Moment, Recurrence};
use crate::db::{Answer, Error as DbError, Request};
use crate::text::{push_str, string_from};

verus! {

/// What an action is, as a mathematical value.
pub enum Command {
    Add { due: Moment, recurrence: Option<Recurrence>, message: Seq<char>, chat: ChatId },
    Remove { id: int, chat: ChatId },
    List { chat: ChatId },
}

/// Remind a conversation of a message at a moment, once or repeatedly.
#[derive(Debug, Clone, PartialEq, Eq, Hash)]
pub struct AddReminder {
    pub due: DueTimestamp,
    pub recurrence: Option<Recurrence>,
    pub message: String,
    pub chat_id: ChatId,
}

/// Cancel a reminder of a conversation.
#[derive(Debug, Clone, Copy, PartialEq, Eq, Hash)]
pub struct RemoveReminder {
    pub reminder_id: i32,
    pub chat_id: ChatId,
}

/// Tell a conversation its reminders.
#[derive(Debug, Clone, Copy, PartialEq, Eq, Hash)]
pub struct ListReminders {
    pub chat_id: ChatId,
}

/// What a conversation asked for.
#[derive(Debug, Clone, PartialEq, Eq, Hash)]
pub enum Action {
    AddReminder(AddReminder),
    RemoveReminder(RemoveReminder),
    ListReminders(ListReminders),
}

impl View for AddReminder {
    type V = Command;

    open spec fn view(&self) -> Command {
        Command::Add {
            due: self.due@,
            recurrence: self.recurrence,
            message: self.message@,
            chat: self.chat_id,
        }
    }
}

impl View for RemoveReminder {
    type V = Command;

    open spec fn view(&self) -> Command {
        Command::Remove { id: self.reminder_id as int, chat: self.chat_id }
    }
}

impl View for ListReminders {
    type V = Command;

    open spec fn view(&self) -> Command {
        Command::List { chat: self.chat_id }
    }
}

impl View for Action {
    type V = Command;

    open spec fn view(&self) -> Command {
        match self {
            Action::AddReminder(add) => add@,
            Action::RemoveReminder(remove) => remove@,
            Action::ListReminders(list) => list@,
        }
    }
}

impl Command {
    /// Whether the moment and the recurrence of the command, where it has
    /// them, are well-formed.
    pub open spec fn valid(self) -> bool {
        match self {
            Command::Add { due, recurrence, .. } => {
                &&& due.valid()
                &&& recurrence matches Some(r) ==> r.wf()
            },
            _ => true,
        }
    }
}

/// Why an action could not be carried out.
#[derive(Debug, Clone, PartialEq, Eq, Hash)]
pub enum ExecutionError {
    Db(DbError),
    Bot(BotError),
}

impl ExecutionError {
    /// The error as written: what failed, a colon, and why.
    pub open spec fn text(self) -> Seq<char> {
        match self {
            ExecutionError::Db(error) => seq![
                'd',
                'a',
                't',
                'a',
                'b',
                'a',
                's',
                'e',
                ' ',
                'e',
                'r',
                'r',
                'o',
                'r',
                ':',
                ' ',
            ] + error.message@,
            ExecutionError::Bot(error) => seq!['b', 'o', 't', ' ', 'e', 'r', 'r', 'o', 'r', ':', ' ']
                + error.message@,
        }
    }

    /// The error as written.
    pub fn render(&self) -> (s: String)
        ensures
            s@ == self.text(),
    {
        let mut out: Vec<char> = Vec::new();
        match self {
            ExecutionError::Db(error) => {
                push_str(&mut out, "database error: ");
                push_str(&mut out, error.message.as_str());
            },
            ExecutionError::Bot(error) => {
                push_str(&mut out, "bot error: ");
                push_str(&mut out, error.message.as_str());
            },
        }
        proof {
            reveal_strlit("database error: ");
            reveal_strlit("bot error: ");
            assert(out@ == self.text());
        }
        string_from(&out)
    }

    /// What became of an action whose reply was handed to the transport:
    /// done, or failed with what the transport says.
    pub fn after_send(sent: Result<(), BotError>) -> (r: Result<(), ExecutionError>)
        ensures
            r == (match sent {
                Ok(()) => Ok::<(), ExecutionError>(()),
                Err(error) => Err::<(), ExecutionError>(ExecutionError::Bot(error)),
            }),
    {
        match sent {
            Ok(()) => Ok(()),
            Err(error) => Err(ExecutionError::Bot(error)),
        }
    }
}

/// A text to send to a conversation.
#[derive(Debug, Clone, PartialEq, Eq, Hash)]
pub struct Reply {
    pub chat_id: ChatId,
    pub text: String,
}

/// The lines of `reminders`, each with a line feed after it.
pub open spec fn lines_text(reminders: Seq<Reminder>) -> Seq<char>
    decreases reminders.len(),
{
    if reminders.len() == 0 {
        Seq::empty()
    } else {
        lines_text(reminders.drop_last()) + reminders.last().text() + seq!['\n']
    }
}

/// What tells a conversation its reminders: a heading, a line feed, and the
/// lines of the reminders in their order.
pub open spec fn listing_text(header: Seq<char>, reminders: Seq<Reminder>) -> Seq<char> {
    header + seq!['\n'] + lines_text(reminders)
}

/// What tells a conversation that a reminder was added: a phrase, a line
/// feed, and the summary of the reminder.
pub open spec fn added_text(
    phrase: Seq<char>,
    due: DueTimestamp,
    recurrence: Option<Recurrence>,
    message: Seq<char>,
) -> Seq<char> {
    phrase + seq!['\n'] + summary_text(due, recurrence, message)
}

impl AddReminder {
    /// The reminder that the store is to hold.
    pub fn reminder(&self) -> (new: NewReminder<'_>)
        ensures
            new.due == self.due,
            new.recurrence == self.recurrence,
            new.chat == self.chat_id,
            new.message@ == self.message@,
    {
        NewReminder {
            due: self.due,
            recurrence: self.recurrence,
            chat: self.chat_id,
            message: self.message.as_str(),
        }
    }

    /// What tells the conversation, with `phrase`, that the reminder was
    /// added.
    pub fn confirmation(&self, phrase: &str) -> (text: String)
        requires
            self.due.wf(),
        ensures
            text@ == added_text(phrase@, self.due, self.recurrence, self.message@),
    {
        let mut out: Vec<char> = Vec::new();
        push_str(&mut out, phrase);
        out.push('\n');
        self.reminder().write_to(&mut out);
        string_from(&out)
    }

    /// What to reply once the store has been asked to hold the reminder: if
    /// it does, one of the phrases for that with the summary of the
    /// reminder; if it failed, nothing, and the failure is handed on.
    pub fn execute(&self, stored: Result<(), DbError>, messages: &Messages) -> (r: Result<
        Reply,
        ExecutionError,
    >)
        requires
            self.due.wf(),
            messages.added_messages@.len() > 0,
        ensures
            match stored {
                Ok(()) => r matches Ok(reply) && reply.chat_id == self.chat_id && exists|
                    i: int,
                |
                    #![trigger messages.added_messages@[i]]
                    0 <= i < messages.added_messages@.len() && reply.text@ == added_text(
                        messages.added_messages@[i]@,
                        self.due,
                        self.recurrence,
                        self.message@,
                    ),
                Err(error) => r == Err::<Reply, ExecutionError>(ExecutionError::Db(error)),
            },
    {
        match stored {
            Ok(()) => {
                let phrase = messages.added_message();
                let text = self.confirmation(phrase);
                proof {
                    let i = choose|i: int|
                        0 <= i < messages.added_messages@.len() && (
                        #[trigger] messages.added_messages@[i])@ == phrase@;
                    assert(text@ == added_text(
                        messages.added_messages@[i]@,
                        self.due,
                        self.recurrence,
                        self.message@,
                    ));
                }
                Ok(Reply { chat_id: self.chat_id, text })
            },
            Err(error) => Err(ExecutionError::Db(error)),
        }
    }
}

impl RemoveReminder {
    /// What to reply once the store has been asked to drop the reminder: one
    /// of the phrases for a reminder that was removed if there was one to
    /// drop, and one for a reminder that is not there if there was none; if
    /// the store failed, nothing, and the failure is handed on.
    pub fn execute(&self, deleted: Result<bool, DbError>, messages: &Messages) -> (r: Result<
        Reply,
        ExecutionError,
    >)
        requires
            messages.removed_messages@.len() > 0,
            messages.not_found_messages@.len() > 0,
        ensures
            match deleted {
                Ok(true) => r matches Ok(reply) && reply.chat_id == self.chat_id && one_of(
                    messages.removed_messages@,
                    reply.text@,
                ),
                Ok(false) => r matches Ok(reply) && reply.chat_id == self.chat_id && one_of(
                    messages.not_found_messages@,
                    reply.text@,
                ),
                Err(error) => r == Err::<Reply, ExecutionError>(ExecutionError::Db(error)),
            },
    {
        match deleted {
            Ok(success) => {
                let phrase = if success {
                    messages.removed_message()
                } else {
                    messages.not_found_message()
                };
                Ok(Reply { chat_id: self.chat_id, text: phrase.to_owned() })
            },
            Err(error) => Err(ExecutionError::Db(error)),
        }
    }
}

/// Whether the due moment of each of `reminders` is well-formed.
pub open spec fn all_wf(reminders: Seq<Reminder>) -> bool {
    forall|i: int| 0 <= i < reminders.len() ==> (#[trigger] reminders[i]).due.wf()
}

impl ListReminders {
    /// What tells a conversation, under the heading `header`, its
    /// `reminders`.
    pub fn listing(header: &str, reminders: &Vec<Reminder>) -> (text: String)
        requires
            all_wf(reminders@),
        ensures
            text@ == listing_text(header@, reminders@),
    {
        let mut out: Vec<char> = Vec::new();
        push_str(&mut out, header);
        out.push('\n');
        let ghost head = out@;
        let mut i: usize = 0;
        assert(reminders@.take(0) == Seq::<Reminder>::empty());
        while i < reminders.len()
            invariant
                i <= reminders@.len(),
                all_wf(reminders@),
                out@ == head + lines_text(reminders@.take(i as int)),
            decreases reminders@.len() - i,
        {
            let ghost upto = reminders@.take(i + 1);
            assert(upto.drop_last() == reminders@.take(i as int));
            assert(upto.last() == reminders@[i as int]);
            reminders[i].write_to(&mut out);
            out.push('\n');
            assert(out@ == head + lines_text(upto));
            i += 1;
        }
        assert(reminders@.take(reminders@.len() as int) == reminders@);
        string_from(&out)
    }

    /// What to reply once the store has been asked for the reminders of the
    /// conversation: one of the phrases for no reminders if there are none,
    /// else the reminders in the order of the store under one of the
    /// headings; if the store failed, nothing, and the failure is handed on.
    pub fn execute(&self, listed: Result<Vec<Reminder>, DbError>, messages: &Messages) -> (r:
        Result<Reply, ExecutionError>)
        requires
            messages.empty_messages@.len() > 0,
            messages.list_header_messages@.len() > 0,
            listed matches Ok(reminders) ==> all_wf(reminders@),
        ensures
            match listed {
                Ok(reminders) => r matches Ok(reply) && reply.chat_id == self.chat_id && (if reminders@.len()
                    == 0 {
                    one_of(messages.empty_messages@, reply.text@)
                } else {
                    exists|i: int|
                        #![trigger messages.list_header_messages@[i]]
                        0 <= i < messages.list_header_messages@.len() && reply.text@
                            == listing_text(messages.list_header_messages@[i]@, reminders@)
                }),
                Err(error) => r == Err::<Reply, ExecutionError>(ExecutionError::Db(error)),
            },
    {
        match listed {
            Ok(reminders) => {
                if reminders.len() == 0 {
                    let phrase = messages.empty_message();
                    Ok(Reply { chat_id: self.chat_id, text: phrase.to_owned() })
                } else {
                    let header = messages.list_header_message();
                    let text = ListReminders::listing(header, &reminders);
                    proof {
                        let i = choose|i: int|
                            0 <= i < messages.list_header_messages@.len() && (
                            #[trigger] messages.list_header_messages@[i])@ == header@;
                        assert(text@ == listing_text(
                            messages.list_header_messages@[i]@,
                            reminders@,
                        ));
                    }
                    Ok(Reply { chat_id: self.chat_id, text })
                }
            },
            Err(error) => Err(ExecutionError::Db(error)),
        }
    }
}

impl Action {
    /// Reads `input`, a text from the conversation `chat_id`, as a command.
    pub fn parse(commands: &Commands, chat_id: ChatId, input: &str) -> (r: Result<
        Action,
        ParseError,
    >)
        ensures
            match r {
                Ok(action) => parsed(
                    commands.list_command@,
                    commands.remove_command@,
                    chat_id,
                    input@,
                ) == Some(action@) && action@.valid() && action.wf(),
                Err(error) => parsed(
                    commands.list_command@,
                    commands.remove_command@,
                    chat_id,
                    input@,
                ) is None && error.input@ == input@,
            },
    {
        parser::parse(commands, chat_id, input)
    }

    /// Whether the due moment of the action, where it has one, is well-formed.
    pub open spec fn wf(self) -> bool {
        self matches Action::AddReminder(add) ==> add.due.wf()
    }

    /// Whether `answer` is an answer to what the action asks of the store.
    pub open spec fn answered_by(self, answer: Answer) -> bool {
        match self {
            Action::AddReminder(_) => answer is Stored,
            Action::RemoveReminder(_) => answer is Found,
            Action::ListReminders(_) => answer matches Answer::Reminders(reminders) && all_wf(
                reminders@,
            ),
        }
    }

    /// What the action asks of the store: to hold the reminder, to drop the
    /// reminder if it is one of the conversation, or to give the reminders of
    /// the conversation.
    pub fn request(&self) -> (request: Request<'_>)
        ensures
            match self {
                Action::AddReminder(add) => request matches Request::NewReminder(new) && new.due
                    == add.due && new.recurrence == add.recurrence && new.chat == add.chat_id
                    && new.message@ == add.message@,
                Action::RemoveReminder(remove) => request == (Request::DeleteChatReminder {
                    reminder_id: remove.reminder_id,
                    chat_id: remove.chat_id,
                }),
                Action::ListReminders(list) => request == (Request::ChatReminders {
                    chat_id: list.chat_id,
                }),
            },
    {
        match self {
            Action::AddReminder(add) => Request::NewReminder(add.reminder()),
            Action::RemoveReminder(remove) => Request::DeleteChatReminder {
                reminder_id: remove.reminder_id,
                chat_id: remove.chat_id,
            },
            Action::ListReminders(list) => Request::ChatReminders { chat_id: list.chat_id },
        }
    }

    /// What to reply once the store has answered what the action asked of
    /// it: what the action of that kind replies.
    pub fn execute(&self, answered: Result<Answer, DbError>, messages: &Messages) -> (r: Result<
        Reply,
        ExecutionError,
    >)
        requires
            self.wf(),
            messages.wf(),
            answered matches Ok(answer) ==> self.answered_by(answer),
        ensures
            match answered {
                Ok(answer) => r matches Ok(reply) && reply.chat_id == self@.chat() && replies(
                    *self,
                    answer,
                    *messages,
                    reply.text@,
                ),
                Err(error) => r == Err::<Reply, ExecutionError>(ExecutionError::Db(error)),
            },
    {
        match self {
            Action::AddReminder(add) => match answered {
                Ok(_) => add.execute(Ok(()), messages),
                Err(error) => add.execute(Err(error), messages),
            },
            Action::RemoveReminder(remove) => match answered {
                Ok(Answer::Found(found)) => remove.execute(Ok(found), messages),
                Ok(_) => vstd::pervasive::unreached(),
                Err(error) => remove.execute(Err(error), messages),
            },
            Action::ListReminders(list) => match answered {
                Ok(Answer::Reminders(reminders)) => list.execute(Ok(reminders), messages),
                Ok(_) => vstd::pervasive::unreached(),
                Err(error) => list.execute(Err(error), messages),
            },
        }
    }
}

impl Command {
    /// The conversation that the command comes from.
    pub open spec fn chat(self) -> ChatId {
        match self {
            Command::Add { chat, .. } => chat,
            Command::Remove { chat, .. } => chat,
            Command::List { chat } => chat,
        }
    }
}

/// Whether `text` is a reply to `action` once the store has answered
/// `answer`: a phrase of the pool for the occasion, with the summary of the
/// reminder after it where one was added, and with the reminders after it
/// where there are some to list.
pub open spec fn replies(action: Action, answer: Answer, messages: Messages, text: Seq<char>) -> bool {
    match action {
        Action::AddReminder(add) => exists|i: int|
            #![trigger messages.added_messages@[i]]
            0 <= i < messages.added_messages@.len() && text == added_text(
                messages.added_messages@[i]@,
                add.due,
                add.recurrence,
                add.message@,
            ),
        Action::RemoveReminder(_) => match answer {
            Answer::Found(true) => one_of(messages.removed_messages@, text),
            _ => one_of(messages.not_found_messages@, text),
        },
        Action::ListReminders(_) => match answer {
            Answer::Reminders(reminders) if reminders@.len() > 0 => exists|i: int|
                #![trigger messages.list_header_messages@[i]]
                0 <= i < messages.list_header_messages@.len() && text == listing_text(
                    messages.list_header_messages@[i]@,
                    reminders@,
                ),
            _ => one_of(messages.empty_messages@, text),
        },
    }
}

/// Whether two reminders are the same as values.
pub open spec fn same_reminder(a: Reminder, b: Reminder) -> bool {
    &&& a.id == b.id
    &&& a.due@ == b.due@
    &&& a.recurrence == b.recurrence
    &&& a.chat == b.chat
    &&& a.message@ == b.message@
}

/// Whether two answers of the store say the same.
pub open spec fn same_answer(a: Answer, b: Answer) -> bool {
    match (a, b) {
        (Answer::Stored, Answer::Stored) => true,
        (Answer::Found(a), Answer::Found(b)) => a == b,
        (Answer::Reminders(a), Answer::Reminders(b)) => {
            &&& a@.len() == b@.len()
            &&& forall|i: int| 0 <= i < a@.len() ==> same_reminder(#[trigger] a@[i], b@[i])
        },
        _ => false,
    }
}

/// The same reminders are written as the same lines.
pub proof fn lemma_lines_repeat(a: Seq<Reminder>, b: Seq<Reminder>)
    requires
        a.len() == b.len(),
        forall|i: int| 0 <= i < a.len() ==> same_reminder(#[trigger] a[i], b[i]),
    ensures
        lines_text(a) == lines_text(b),
    decreases a.len(),
{
    if a.len() > 0 {
        assert forall|i: int| 0 <= i < a.drop_last().len() implies same_reminder(
            #[trigger] a.drop_last()[i],
            b.drop_last()[i],
        ) by {
            assert(same_reminder(a[i], b[i]));
        }
        lemma_lines_repeat(a.drop_last(), b.drop_last());
        assert(same_reminder(a[a.len() - 1], b[a.len() - 1]));
    }
}

/// The same command with the same answer of the store gets the same reply:
/// what may be replied to an action, once the store has answered, depends
/// on nothing but what the action asks for, what the store answered, and the
/// phrases to pick from. So a command to list or to remove that is given
/// again, to a store that answers as before, is replied to as before, up to
/// the pick of the phrase.
pub proof fn lemma_reply_repeats(
    first: Action,
    again: Action,
    answer: Answer,
    answer_again: Answer,
    messages: Messages,
    text: Seq<char>,
)
    requires
        first@ == again@,
        same_answer(answer, answer_again),
    ensures
        replies(first, answer, messages, text) == replies(again, answer_again, messages, text),
{
    match (first, again) {
        (Action::AddReminder(a), Action::AddReminder(b)) => {
            assert(forall|phrase: Seq<char>|
                added_text(phrase, a.due, a.recurrence, a.message@) == added_text(
                    phrase,
                    b.due,
                    b.recurrence,
                    b.message@,
                ));
        },
        (Action::ListReminders(_), Action::ListReminders(_)) => {
            match (answer, answer_again) {
                (Answer::Reminders(a), Answer::Reminders(b)) => {
                    lemma_lines_repeat(a@, b@);
                },
                _ => {},
            }
        },
        _ => {},
    }
}

} // verus!
