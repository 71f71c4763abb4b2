//! What an operator configures: the words of the commands, the phrases of the
//! replies, and the handshake that makes a conversation trusted.

use vstd::prelude::*;

verus! {

/// The handshake with a new conversation.
#[derive(Debug, Clone, PartialEq, Eq, Hash)]
pub struct Authentication {
    /// What is sent to a conversation that the bot has just joined.
    pub prompt: String,
    /// What a conversation has to answer to become trusted.
    pub password: String,
    /// What is sent to a conversation that has become trusted.
    pub authorized: String,
}

/// How the bot reaches its store and its transport, and who it is.
#[derive(Debug, Clone, PartialEq, Eq, Hash)]
pub struct Bot {
    pub db: String,
    pub key: String,
    pub username: String,
    pub authentication: Authentication,
}

/// The words of the commands.
#[derive(Debug, Clone, PartialEq, Eq, Hash)]
pub struct Commands {
    pub remove_command: String,
    pub list_command: String,
}

/// The phrases of the replies: for each occasion the phrases to pick from.
#[derive(Debug, Clone, PartialEq, Eq, Hash)]
pub struct Messages {
    pub added_messages: Vec<String>,
    pub removed_messages: Vec<String>,
    pub not_found_messages: Vec<String>,
    pub empty_messages: Vec<String>,
    pub list_header_messages: Vec<String>,
    pub misunderstanding_messages: Vec<String>,
}

/// All that is configured.
#[derive(Debug, Clone, PartialEq, Eq, Hash)]
pub struct Config {
    pub bot: Bot,
    pub commands: Commands,
    pub messages: Messages,
}

/// Whether `phrase` is one of the phrases of `pool`.
pub open spec fn one_of(pool: Seq<String>, phrase: Seq<char>) -> bool {
    exists|i: int| 0 <= i < pool.len() && (#[trigger] pool[i])@ == phrase
}

/// `fastrand::usize` with the range `..bound`: a number below `bound`, which
/// one is left to chance. It panics on an empty range.
#[verifier::external_body]
fn below(bound: usize) -> (index: usize)
    requires
        bound > 0,
    ensures
        index < bound,
{
    fastrand::usize(..bound)
}

/// One of the phrases of `pool`, which one is left to chance.
pub fn pick(pool: &Vec<String>) -> (phrase: &str)
    requires
        pool@.len() > 0,
    ensures
        one_of(pool@, phrase@),
{
    let index = below(pool.len());
    pool[index].as_str()
}

impl Messages {
    /// Whether there is a phrase to pick for each occasion.
    pub open spec fn wf(self) -> bool {
        &&& self.added_messages@.len() > 0
        &&& self.removed_messages@.len() > 0
        &&& self.not_found_messages@.len() > 0
        &&& self.empty_messages@.len() > 0
        &&& self.list_header_messages@.len() > 0
        &&& self.misunderstanding_messages@.len() > 0
    }

    /// A phrase for a reminder that was added.
    pub fn added_message(&self) -> (phrase: &str)
        requires
            self.added_messages@.len() > 0,
        ensures
            one_of(self.added_messages@, phrase@),
    {
        pick(&self.added_messages)
    }

    /// A phrase for a reminder that was removed.
    pub fn removed_message(&self) -> (phrase: &str)
        requires
            self.removed_messages@.len() > 0,
        ensures
            one_of(self.removed_messages@, phrase@),
    {
        pick(&self.removed_messages)
    }

    /// A phrase for a reminder that was to be removed and is not there.
    pub fn not_found_message(&self) -> (phrase: &str)
        requires
            self.not_found_messages@.len() > 0,
        ensures
            one_of(self.not_found_messages@, phrase@),
    {
        pick(&self.not_found_messages)
    }

    /// A phrase for a conversation without reminders.
    pub fn empty_message(&self) -> (phrase: &str)
        requires
            self.empty_messages@.len() > 0,
        ensures
            one_of(self.empty_messages@, phrase@),
    {
        pick(&self.empty_messages)
    }

    /// A phrase to head the list of reminders.
    pub fn list_header_message(&self) -> (phrase: &str)
        requires
            self.list_header_messages@.len() > 0,
        ensures
            one_of(self.list_header_messages@, phrase@),
    {
        pick(&self.list_header_messages)
    }

    /// A phrase for a text that is no command.
    pub fn misunderstanding_message(&self) -> (phrase: &str)
        requires
            self.misunderstanding_messages@.len() > 0,
        ensures
            one_of(self.misunderstanding_messages@, phrase@),
    {
        pick(&self.misunderstanding_messages)
    }
}

} // verus!
