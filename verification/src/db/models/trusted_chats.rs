//! Trusted conversations as stored and as handed to the store.

use vstd::prelude::*;

use crate::db::types::ChatId;
use crate::text::{integer_text, push_integer, push_str, string_from};

verus! {

/// The line that writes a trusted conversation: `ChatId(` and the number of the
/// identifier `)`, then the user name and the title, each after a space,
/// where there is one.
pub open spec fn entry_text(
    id: ChatId,
    username: Option<Seq<char>>,
    title: Option<Seq<char>>,
) -> Seq<char> {
    let head = seq!['C', 'h', 'a', 't', 'I', 'd', '('] + integer_text(id.0 as int) + seq![')'];
    let named = match username {
        Some(name) => head + seq![' '] + name,
        None => head,
    };
    match title {
        Some(title) => named + seq![' '] + title,
        None => named,
    }
}

/// Appends the line that writes a trusted conversation to `out`.
fn push_entry(out: &mut Vec<char>, id: ChatId, username: Option<&str>, title: Option<&str>)
    ensures
        final(out)@ == old(out)@ + entry_text(
            id,
            match username {
                Some(name) => Some(name@),
                None => None,
            },
            match title {
                Some(title) => Some(title@),
                None => None,
            },
        ),
{
    out.push('C');
    out.push('h');
    out.push('a');
    out.push('t');
    out.push('I');
    out.push('d');
    out.push('(');
    push_integer(out, id.0);
    out.push(')');
    let ghost head = seq!['C', 'h', 'a', 't', 'I', 'd', '('] + integer_text(id.0 as int) + seq![')'];
    assert(out@ == old(out)@ + head);
    match username {
        Some(name) => {
            out.push(' ');
            push_str(out, name);
            assert(out@ == old(out)@ + (head + seq![' '] + name@));
        },
        None => {},
    }
    let ghost named = match username {
        Some(name) => head + seq![' '] + name@,
        None => head,
    };
    assert(out@ == old(out)@ + named);
    match title {
        Some(title) => {
            out.push(' ');
            push_str(out, title);
            assert(out@ == old(out)@ + (named + seq![' '] + title@));
        },
        None => {},
    }
}

/// A trusted conversation as the store holds it.
#[derive(Debug, Clone, PartialEq, Eq, Hash)]
pub struct TrustedChat {
    pub id: ChatId,
    pub username: Option<String>,
    pub title: Option<String>,
}

impl TrustedChat {
    /// The line that writes the conversation.
    pub open spec fn text(self) -> Seq<char> {
        entry_text(
            self.id,
            match self.username {
                Some(name) => Some(name@),
                None => None,
            },
            match self.title {
                Some(title) => Some(title@),
                None => None,
            },
        )
    }

    /// The line that writes the conversation.
    pub fn render(&self) -> (s: String)
        ensures
            s@ == self.text(),
    {
        let mut out: Vec<char> = Vec::new();
        let username = match &self.username {
            Some(name) => Some(name.as_str()),
            None => None,
        };
        let title = match &self.title {
            Some(title) => Some(title.as_str()),
            None => None,
        };
        push_entry(&mut out, self.id, username, title);
        string_from(&out)
    }
}

/// A trusted conversation that the store does not hold yet.
#[derive(Debug, Clone, Copy, PartialEq, Eq, Hash)]
pub struct NewTrustedChat<'a> {
    pub id: ChatId,
    pub username: Option<&'a str>,
    pub title: Option<&'a str>,
}

impl<'a> NewTrustedChat<'a> {
    /// The line that writes the conversation.
    pub open spec fn text(self) -> Seq<char> {
        entry_text(
            self.id,
            match self.username {
                Some(name) => Some(name@),
                None => None,
            },
            match self.title {
                Some(title) => Some(title@),
                None => None,
            },
        )
    }

    /// The line that writes the conversation.
    pub fn render(&self) -> (s: String)
        ensures
            s@ == self.text(),
    {
        let mut out: Vec<char> = Vec::new();
        push_entry(&mut out, self.id, self.username, self.title);
        string_from(&out)
    }
}

} // verus!
