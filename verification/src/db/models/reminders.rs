//! Reminders as stored and as handed to the store.

use vstd::prelude::*;

use crate::db::types::{ChatId, DueTimestamp, Recurrence};
use crate::text::{integer_text, push_integer, push_str, string_from};

verus! {

/// The line that writes a reminder without its identifier: the due moment,
/// the recurrence if there is one, a colon and the message.
pub open spec fn summary_text(
    due: DueTimestamp,
    recurrence: Option<Recurrence>,
    message: Seq<char>,
) -> Seq<char> {
    match recurrence {
        Some(r) => due@.text() + seq![' '] + r.text() + seq![':', ' '] + message,
        None => due@.text() + seq![':', ' '] + message,
    }
}

/// Appends the summary of a reminder to `out`.
fn push_summary(
    out: &mut Vec<char>,
    due: &DueTimestamp,
    recurrence: &Option<Recurrence>,
    message: &str,
)
    requires
        due.wf(),
    ensures
        final(out)@ == old(out)@ + summary_text(*due, *recurrence, message@),
{
    due.write_to(out);
    match recurrence {
        Some(r) => {
            out.push(' ');
            r.write_to(out);
        },
        None => {},
    }
    out.push(':');
    out.push(' ');
    push_str(out, message);
    assert(out@ == old(out)@ + summary_text(*due, *recurrence, message@));
}

/// A reminder as the store holds it.
#[derive(Debug, Clone, PartialEq, Eq, Hash)]
pub struct Reminder {
    pub id: i32,
    pub due: DueTimestamp,
    pub recurrence: Option<Recurrence>,
    pub chat: ChatId,
    pub message: String,
}

impl Reminder {
    /// The line that writes the reminder: the identifier in parentheses, then
    /// its summary.
    pub open spec fn text(self) -> Seq<char> {
        seq!['('] + integer_text(self.id as int) + seq![')', ' '] + summary_text(
            self.due,
            self.recurrence,
            self.message@,
        )
    }

    /// Whether the reminder repeats.
    pub fn is_recurrying(&self) -> (r: bool)
        ensures
            r == self.recurrence is Some,
    {
        self.recurrence.is_some()
    }

    /// Appends the line that writes the reminder to `out`.
    pub fn write_to(&self, out: &mut Vec<char>)
        requires
            self.due.wf(),
        ensures
            final(out)@ == old(out)@ + self.text(),
    {
        out.push('(');
        push_integer(out, self.id as i64);
        out.push(')');
        out.push(' ');
        let ghost head = out@;
        push_summary(out, &self.due, &self.recurrence, self.message.as_str());
        assert(out@ == old(out)@ + self.text());
    }

    /// The line that writes the reminder.
    pub fn render(&self) -> (s: String)
        requires
            self.due.wf(),
        ensures
            s@ == self.text(),
    {
        let mut out: Vec<char> = Vec::new();
        self.write_to(&mut out);
        string_from(&out)
    }
}

/// A reminder that the store does not hold yet.
#[derive(Debug, Clone, Copy, PartialEq, Eq, Hash)]
pub struct NewReminder<'a> {
    pub due: DueTimestamp,
    pub recurrence: Option<Recurrence>,
    pub chat: ChatId,
    pub message: &'a str,
}

impl<'a> NewReminder<'a> {
    /// The line that writes the reminder: its summary.
    pub open spec fn text(self) -> Seq<char> {
        summary_text(self.due, self.recurrence, self.message@)
    }

    /// Appends the line that writes the reminder to `out`.
    pub fn write_to(&self, out: &mut Vec<char>)
        requires
            self.due.wf(),
        ensures
            final(out)@ == old(out)@ + self.text(),
    {
        push_summary(out, &self.due, &self.recurrence, self.message);
    }

    /// The line that writes the reminder.
    pub fn render(&self) -> (s: String)
        requires
            self.due.wf(),
        ensures
            s@ == self.text(),
    {
        let mut out: Vec<char> = Vec::new();
        self.write_to(&mut out);
        string_from(&out)
    }
}

} // verus!
