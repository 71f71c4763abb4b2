//! The bot as conversations see it: which of them it trusts, and what it
//! takes from them.
//!
//! A conversation becomes trusted by answering the prompt with the password.
//! Until then nothing it says is taken as a command, and a wrong answer makes
//! the bot leave.

pub mod message;

use std::collections::HashSet;
use vstd::prelude::*;

use crate::bot::message::{Channel, Message, MessageChat, UpdateKind};
use crate::config::Authentication;
use crate::db::models::trusted_chats::NewTrustedChat;
use crate::db::types::ChatId;
use crate::text::same_text;

verus! {

broadcast use vstd::std_specs::hash::group_hash_axioms;

/// Why the transport could not do what it was asked.
#[derive(Debug, Clone, PartialEq, Eq, Hash)]
pub struct BotError {
    pub message: String,
}

/// What is known of a conversation, as a mathematical value.
pub struct ChatFacts {
    pub chat_id: ChatId,
    pub username: Option<Seq<char>>,
    pub title: Option<Seq<char>>,
}

/// The characters of `text`, where there is a text.
pub open spec fn text_of(text: Option<String>) -> Option<Seq<char>> {
    match text {
        Some(text) => Some(text@),
        None => None,
    }
}

/// The characters of `text`, where there is a text.
pub open spec fn str_of(text: Option<&str>) -> Option<Seq<char>> {
    match text {
        Some(text) => Some(text@),
        None => None,
    }
}

/// What is known of `chat`: its identifier; the user name of a private
/// conversation, a supergroup or an unknown kind, where it has one; and as
/// title the first name of the user of a private conversation, the title of
/// a group or supergroup, and that of an unknown kind where it has one.
pub open spec fn chat_facts(chat: MessageChat) -> ChatFacts {
    match chat {
        MessageChat::Private(user) => ChatFacts {
            chat_id: ChatId(user.id),
            username: text_of(user.username),
            title: Some(user.first_name@),
        },
        MessageChat::Group(group) => ChatFacts {
            chat_id: ChatId(group.id),
            username: None,
            title: Some(group.title@),
        },
        MessageChat::Supergroup(supergroup) => ChatFacts {
            chat_id: ChatId(supergroup.id),
            username: text_of(supergroup.username),
            title: Some(supergroup.title@),
        },
        MessageChat::Unknown(raw) => ChatFacts {
            chat_id: ChatId(raw.id),
            username: text_of(raw.username),
            title: text_of(raw.title),
        },
    }
}

/// What is known of `channel`: its identifier, its user name where it has
/// one, and its title.
pub open spec fn channel_facts(channel: Channel) -> ChatFacts {
    ChatFacts {
        chat_id: ChatId(channel.id),
        username: text_of(channel.username),
        title: Some(channel.title@),
    }
}

/// What is known of the conversation that `update` belongs to, if it is a
/// message or a post.
pub open spec fn update_facts(update: UpdateKind) -> Option<ChatFacts> {
    match update {
        UpdateKind::Message(message) => Some(chat_facts(message.chat)),
        UpdateKind::ChannelPost(post) => Some(channel_facts(post.chat)),
        UpdateKind::Other => None,
    }
}

/// What is known of a conversation.
#[derive(Debug, Clone, Copy, PartialEq, Eq, Hash)]
pub struct ChatInfo<'a> {
    pub chat_id: ChatId,
    pub username: Option<&'a str>,
    pub title: Option<&'a str>,
}

impl<'a> View for ChatInfo<'a> {
    type V = ChatFacts;

    open spec fn view(&self) -> ChatFacts {
        ChatFacts {
            chat_id: self.chat_id,
            username: str_of(self.username),
            title: str_of(self.title),
        }
    }
}

fn as_deref<'a>(text: &'a Option<String>) -> (r: Option<&'a str>)
    ensures
        str_of(r) == text_of(*text),
{
    match text {
        Some(text) => Some(text.as_str()),
        None => None,
    }
}

impl<'a> ChatInfo<'a> {
    /// What is known of the conversation that `update_kind` belongs to.
    pub fn from_update(update_kind: &'a UpdateKind) -> (info: Option<ChatInfo<'a>>)
        ensures
            match info {
                Some(info) => update_facts(*update_kind) == Some(info@),
                None => update_facts(*update_kind) is None,
            },
    {
        match update_kind {
            UpdateKind::Message(message) => Some(ChatInfo::from(&message.chat)),
            UpdateKind::ChannelPost(post) => Some(ChatInfo::from_channel(&post.chat)),
            UpdateKind::Other => None,
        }
    }

    /// What is known of `chat`.
    pub fn from(chat: &'a MessageChat) -> (info: ChatInfo<'a>)
        ensures
            info@ == chat_facts(*chat),
    {
        let (username, title) = match chat {
            MessageChat::Private(user) => (
                as_deref(&user.username),
                Some(user.first_name.as_str()),
            ),
            MessageChat::Group(group) => (None, Some(group.title.as_str())),
            MessageChat::Supergroup(supergroup) => (
                as_deref(&supergroup.username),
                Some(supergroup.title.as_str()),
            ),
            MessageChat::Unknown(raw) => (as_deref(&raw.username), as_deref(&raw.title)),
        };
        ChatInfo { chat_id: chat.id(), username, title }
    }

    /// What is known of `channel`.
    pub fn from_channel(channel: &'a Channel) -> (info: ChatInfo<'a>)
        ensures
            info@ == channel_facts(*channel),
    {
        ChatInfo {
            chat_id: ChatId(channel.id),
            username: as_deref(&channel.username),
            title: Some(channel.title.as_str()),
        }
    }
}

/// What the bot makes of something that arrived, as a mathematical value.
pub enum Decision {
    /// It belongs to no conversation: it is dropped.
    Ignore,
    /// The bot has come to the conversation: the prompt is to be sent.
    Challenge { chat_id: ChatId },
    /// The conversation is trusted: what arrived may be taken as a command.
    Admit,
    /// The conversation gave the password: it is to be stored as trusted.
    /// The text that gave the password is not itself taken as a command.
    Enroll { chat: ChatFacts },
    /// The conversation did not give the password: the bot is to leave it.
    Leave { chat_id: ChatId },
}

/// What a bot named `username` that trusts the conversations `trusted` makes
/// of `update`, where `password` makes a conversation trusted. That the bot
/// has come to a conversation goes before everything else: the conversation
/// gets the prompt, whether it is trusted or not and whatever it says.
pub open spec fn decision(
    trusted: Set<i64>,
    username: Seq<char>,
    password: Seq<char>,
    update: UpdateKind,
) -> Decision {
    match update_facts(update) {
        None => Decision::Ignore,
        Some(chat) => if update.joins(username) {
            Decision::Challenge { chat_id: chat.chat_id }
        } else if trusted.contains(chat.chat_id.0) {
            Decision::Admit
        } else if update.text() == Some(password) {
            Decision::Enroll { chat }
        } else {
            Decision::Leave { chat_id: chat.chat_id }
        },
    }
}

/// What the bot makes of something that arrived, and what is to be done
/// about it.
#[derive(Debug, Clone, Copy, PartialEq, Eq, Hash)]
pub enum Admission<'a> {
    /// Nothing is to be done.
    Ignore,
    /// `prompt` is to be sent to the conversation.
    Challenge { chat_id: ChatId, prompt: &'a str },
    /// What arrived may be taken as a command.
    Admit,
    /// `chat` is to be stored, and the bot told whether it was.
    Enroll { chat: NewTrustedChat<'a> },
    /// The conversation is to be left.
    Leave { chat_id: ChatId },
}

impl<'a> View for Admission<'a> {
    type V = Decision;

    open spec fn view(&self) -> Decision {
        match self {
            Admission::Ignore => Decision::Ignore,
            Admission::Challenge { chat_id, .. } => Decision::Challenge { chat_id: *chat_id },
            Admission::Admit => Decision::Admit,
            Admission::Enroll { chat } => Decision::Enroll {
                chat: ChatFacts {
                    chat_id: chat.id,
                    username: str_of(chat.username),
                    title: str_of(chat.title),
                },
            },
            Admission::Leave { chat_id } => Decision::Leave { chat_id: *chat_id },
        }
    }
}

impl<'a> Admission<'a> {
    /// Whether what arrived may be taken as a command.
    pub fn admits(&self) -> (admitted: bool)
        ensures
            admitted == (self@ is Admit),
    {
        match self {
            Admission::Admit => true,
            _ => false,
        }
    }
}

/// The bot: its name, its handshake, and the conversations it trusts.
pub struct Bot {
    username: String,
    authentication: Authentication,
    trusted_chats: HashSet<i64>,
}

/// The numbers of the identifiers `ids`.
pub open spec fn identifiers(ids: Seq<ChatId>) -> Set<i64> {
    Set::new(|id: i64| exists|i: int| 0 <= i < ids.len() && (#[trigger] ids[i]).0 == id)
}

impl Bot {
    /// The conversations that the bot trusts.
    pub closed spec fn trusted(self) -> Set<i64> {
        self.trusted_chats@
    }

    /// The user name of the bot.
    pub closed spec fn username(self) -> Seq<char> {
        self.username@
    }

    /// The handshake of the bot.
    pub closed spec fn authentication(self) -> Authentication {
        self.authentication
    }

    /// A bot that trusts the conversations `trusted_chat_ids`, those that the
    /// store holds as trusted.
    pub fn new(username: String, authentication: Authentication, trusted_chat_ids: &Vec<ChatId>) -> (bot:
        Bot)
        ensures
            bot.username() == username@,
            bot.authentication() == authentication,
            bot.trusted() == identifiers(trusted_chat_ids@),
    {
        let mut trusted_chats: HashSet<i64> = HashSet::new();
        let mut i: usize = 0;
        while i < trusted_chat_ids.len()
            invariant
                i <= trusted_chat_ids@.len(),
                trusted_chats@ == identifiers(trusted_chat_ids@.take(i as int)),
            decreases trusted_chat_ids@.len() - i,
        {
            let ghost before = trusted_chat_ids@.take(i as int);
            let ghost after = trusted_chat_ids@.take(i + 1);
            trusted_chats.insert(trusted_chat_ids[i].0);
            proof {
                let id = trusted_chat_ids@[i as int].0;
                assert(after == before.push(trusted_chat_ids@[i as int]));
                assert forall|x: i64| identifiers(before).insert(id).contains(x) == identifiers(
                    after,
                ).contains(x) by {
                    if identifiers(after).contains(x) {
                        let k = choose|k: int| 0 <= k < after.len() && (#[trigger] after[k]).0 == x;
                        if k < i {
                            assert(before[k].0 == x);
                        }
                    }
                    if identifiers(before).contains(x) {
                        let k = choose|k: int|
                            0 <= k < before.len() && (#[trigger] before[k]).0 == x;
                        assert(after[k].0 == x);
                    }
                    if x == id {
                        assert(after[i as int].0 == x);
                    }
                }
                assert(identifiers(before).insert(id) == identifiers(after));
            }
            i += 1;
        }
        assert(trusted_chat_ids@.take(trusted_chat_ids@.len() as int) == trusted_chat_ids@);
        Bot { username, authentication, trusted_chats }
    }

    /// Whether the bot trusts the conversation `chat_id`.
    pub fn trusts(&self, chat_id: ChatId) -> (trusted: bool)
        ensures
            trusted == self.trusted().contains(chat_id.0),
    {
        self.trusted_chats.contains(&chat_id.0)
    }

    /// What the bot makes of `update_kind`. Nothing of the bot changes: a
    /// conversation becomes trusted only once the store holds it, through
    /// [`Bot::confirm`].
    pub fn validate_chat<'a>(&'a self, update_kind: &'a UpdateKind) -> (admission: Admission<'a>)
        ensures
            admission@ == decision(
                self.trusted(),
                self.username(),
                self.authentication().password@,
                *update_kind,
            ),
            admission matches Admission::Challenge { prompt, .. } ==> prompt@
                == self.authentication().prompt@,
    {
        let chat_info = match ChatInfo::from_update(update_kind) {
            Some(info) => info,
            None => {
                return Admission::Ignore;
            },
        };
        if Message::is_new_chat(self.username.as_str(), update_kind) {
            return Admission::Challenge {
                chat_id: chat_info.chat_id,
                prompt: self.authentication.prompt.as_str(),
            };
        }
        if self.trusted_chats.contains(&chat_info.chat_id.0) {
            return Admission::Admit;
        }
        let matches = match Message::get_text(update_kind) {
            Some(password) => same_text(password, self.authentication.password.as_str()),
            None => false,
        };
        if matches {
            Admission::Enroll {
                chat: NewTrustedChat {
                    id: chat_info.chat_id,
                    username: chat_info.username,
                    title: chat_info.title,
                },
            }
        } else {
            Admission::Leave { chat_id: chat_info.chat_id }
        }
    }

    /// Takes note of whether the store now holds the conversation `chat_id`
    /// as trusted. If it does, the bot trusts the conversation from now on,
    /// and what is returned is to be sent to it. If it does not, nothing
    /// changes.
    pub fn confirm(&mut self, chat_id: ChatId, stored: bool) -> (authorized: Option<String>)
        ensures
            final(self).username() == old(self).username(),
            final(self).authentication() == old(self).authentication(),
            final(self).trusted() == (if stored {
                old(self).trusted().insert(chat_id.0)
            } else {
                old(self).trusted()
            }),
            match authorized {
                Some(text) => stored && text@ == old(self).authentication().authorized@,
                None => !stored,
            },
    {
        if stored {
            self.trusted_chats.insert(chat_id.0);
            Some(self.authentication.authorized.clone())
        } else {
            None
        }
    }
}

/// A conversation that is not trusted and gives the password is to be stored
/// as trusted; once it is, whatever it says next, short of a sign that the
/// bot has come to it anew, is admitted.
pub proof fn lemma_password_earns_trust(
    trusted: Set<i64>,
    username: Seq<char>,
    password: Seq<char>,
    first: UpdateKind,
    next: UpdateKind,
)
    requires
        update_facts(first) is Some,
        !first.joins(username),
        !trusted.contains(update_facts(first).unwrap().chat_id.0),
        first.text() == Some(password),
        update_facts(next) is Some,
        update_facts(next).unwrap().chat_id == update_facts(first).unwrap().chat_id,
        !next.joins(username),
    ensures
        decision(trusted, username, password, first) == (Decision::Enroll {
            chat: update_facts(first).unwrap(),
        }),
        decision(
            trusted.insert(update_facts(first).unwrap().chat_id.0),
            username,
            password,
            next,
        ) == Decision::Admit,
{
}

/// A conversation that is not trusted and says anything but the password is
/// to be left, and no other decision is made of it.
pub proof fn lemma_no_password_no_trust(
    trusted: Set<i64>,
    username: Seq<char>,
    password: Seq<char>,
    update: UpdateKind,
)
    requires
        update_facts(update) is Some,
        !update.joins(username),
        !trusted.contains(update_facts(update).unwrap().chat_id.0),
        update.text() != Some(password),
    ensures
        decision(trusted, username, password, update) == (Decision::Leave {
            chat_id: update_facts(update).unwrap().chat_id,
        }),
{
}

} // verus!
