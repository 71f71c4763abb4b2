//! What arrives from the transport, and the text messages made of it.

use vstd::prelude::*;

use crate::db::types::ChatId;
use crate::text::{
    chars_of, has_prefix, push_str, skip_whitespace, starts_with_at, string_of, trim, trim_end_from,
    trim_start,
};

verus! {

/// A user of the transport.
#[derive(Debug, Clone, PartialEq, Eq, Hash)]
pub struct User {
    pub id: i64,
    pub first_name: String,
    pub username: Option<String>,
}

/// A group conversation.
#[derive(Debug, Clone, PartialEq, Eq, Hash)]
pub struct Group {
    pub id: i64,
    pub title: String,
}

/// A supergroup conversation.
#[derive(Debug, Clone, PartialEq, Eq, Hash)]
pub struct Supergroup {
    pub id: i64,
    pub title: String,
    pub username: Option<String>,
}

/// A channel.
#[derive(Debug, Clone, PartialEq, Eq, Hash)]
pub struct Channel {
    pub id: i64,
    pub title: String,
    pub username: Option<String>,
}

/// A conversation of a kind that is not known.
#[derive(Debug, Clone, PartialEq, Eq, Hash)]
pub struct RawChat {
    pub id: i64,
    pub title: Option<String>,
    pub username: Option<String>,
}

/// The conversation that a message belongs to.
#[derive(Debug, Clone, PartialEq, Eq, Hash)]
pub enum MessageChat {
    Private(User),
    Group(Group),
    Supergroup(Supergroup),
    Unknown(RawChat),
}

/// What a message or a post is about.
#[derive(Debug, Clone, PartialEq, Eq, Hash)]
pub enum MessageKind {
    Text { data: String },
    NewChatMembers { members: Vec<User> },
    GroupChatCreated,
    SupergroupChatCreated,
    ChannelChatCreated,
    Other,
}

/// A message of a conversation.
#[derive(Debug, Clone, PartialEq, Eq, Hash)]
pub struct Msg {
    pub from: User,
    pub chat: MessageChat,
    pub kind: MessageKind,
}

/// A post of a channel.
#[derive(Debug, Clone, PartialEq, Eq, Hash)]
pub struct ChannelPost {
    pub chat: Channel,
    pub kind: MessageKind,
}

/// What arrived.
#[derive(Debug, Clone, PartialEq, Eq, Hash)]
pub enum UpdateKind {
    Message(Msg),
    ChannelPost(ChannelPost),
    Other,
}

/// Why what arrived is no text message for the bot.
#[derive(Debug, Clone, PartialEq, Eq, Hash)]
pub enum UpdateError {
    /// It is no text message of a conversation.
    Unrelated(UpdateKind),
    /// It comes from a conversation of a kind that is not known.
    Unsupported(MessageChat),
    /// It is a text of a group that is not addressed to the bot.
    UnrelatedMessage(String),
}

/// A text message for the bot.
#[derive(Debug, Clone, PartialEq, Eq, Hash)]
pub enum Message {
    Text { nickname: String, username: Option<String>, chat_id: ChatId, text: String },
}

impl MessageChat {
    /// The identifier of the conversation.
    pub open spec fn chat_id(self) -> ChatId {
        match self {
            MessageChat::Private(user) => ChatId(user.id),
            MessageChat::Group(group) => ChatId(group.id),
            MessageChat::Supergroup(supergroup) => ChatId(supergroup.id),
            MessageChat::Unknown(raw) => ChatId(raw.id),
        }
    }

    /// The identifier of the conversation.
    pub fn id(&self) -> (id: ChatId)
        ensures
            id == self.chat_id(),
    {
        match self {
            MessageChat::Private(user) => ChatId(user.id),
            MessageChat::Group(group) => ChatId(group.id),
            MessageChat::Supergroup(supergroup) => ChatId(supergroup.id),
            MessageChat::Unknown(raw) => ChatId(raw.id),
        }
    }
}

impl UpdateKind {
    /// What the message or post that arrived is about, if one arrived.
    pub open spec fn kind(self) -> Option<MessageKind> {
        match self {
            UpdateKind::Message(message) => Some(message.kind),
            UpdateKind::ChannelPost(post) => Some(post.kind),
            UpdateKind::Other => None,
        }
    }

    /// The text of the message or post that arrived, if it is a text.
    pub open spec fn text(self) -> Option<Seq<char>> {
        match self.kind() {
            Some(MessageKind::Text { data }) => Some(data@),
            _ => None,
        }
    }

    /// Whether what arrived shows that `username` has come to a conversation:
    /// a message or post that names it among new members, or that tells of a
    /// group, a supergroup or a channel being created.
    pub open spec fn joins(self, username: Seq<char>) -> bool {
        match self.kind() {
            Some(MessageKind::NewChatMembers { members }) => names(members@, username),
            Some(MessageKind::GroupChatCreated) => true,
            Some(MessageKind::SupergroupChatCreated) => true,
            Some(MessageKind::ChannelChatCreated) => true,
            _ => false,
        }
    }
}

/// Whether one of `users` has the user name `username`.
pub open spec fn names(users: Seq<User>, username: Seq<char>) -> bool {
    exists|i: int|
        0 <= i < users.len() && (#[trigger] users[i]).username is Some
            && users[i].username.unwrap()@ == username
}

/// How a text addresses a bot in a group: an at sign, the user name of the
/// bot, a space.
pub open spec fn mention(username: Seq<char>) -> Seq<char> {
    seq!['@'] + username + seq![' ']
}

/// What the text `text` of the conversation `chat` says to the bot
/// `username`. In a private conversation that is the text, trimmed. In a
/// group or supergroup it is what follows the mention of the bot at the
/// start of the trimmed text, less leading whitespace; a text that does not
/// start so says nothing to the bot. Nor does one of an unknown kind of
/// conversation.
pub open spec fn addressed(username: Seq<char>, text: Seq<char>, chat: MessageChat) -> Option<
    Seq<char>,
> {
    match chat {
        MessageChat::Private(_) => Some(trim(text)),
        MessageChat::Unknown(_) => None,
        _ => if has_prefix(trim(text), mention(username)) {
            Some(trim_start(trim(text).skip(mention(username).len() as int)))
        } else {
            None
        },
    }
}

impl UpdateError {
    /// Whether the error only says that what arrived was not meant for the
    /// bot.
    pub fn is_unrelated(&self) -> (unrelated: bool)
        ensures
            unrelated == (self is Unrelated || self is UnrelatedMessage),
    {
        match self {
            UpdateError::Unrelated(_) => true,
            UpdateError::UnrelatedMessage(_) => true,
            UpdateError::Unsupported(_) => false,
        }
    }
}

impl Message {
    /// The text of the message or post that arrived, if it is a text.
    pub fn get_text(update: &UpdateKind) -> (text: Option<&str>)
        ensures
            match text {
                Some(text) => update.text() == Some(text@),
                None => update.text() is None,
            },
    {
        let kind = match update {
            UpdateKind::Message(message) => &message.kind,
            UpdateKind::ChannelPost(post) => &post.kind,
            UpdateKind::Other => {
                return None;
            },
        };
        match kind {
            MessageKind::Text { data } => Some(data.as_str()),
            _ => None,
        }
    }

    /// Whether what arrived shows that the bot `username` has come to a
    /// conversation.
    pub fn is_new_chat(username: &str, update: &UpdateKind) -> (joined: bool)
        ensures
            joined == update.joins(username@),
    {
        let kind = match update {
            UpdateKind::Message(message) => &message.kind,
            UpdateKind::ChannelPost(post) => &post.kind,
            UpdateKind::Other => {
                return false;
            },
        };
        match kind {
            MessageKind::NewChatMembers { members: data } => {
                let mut i: usize = 0;
                while i < data.len()
                    invariant
                        i <= data@.len(),
                        update.joins(username@) == names(data@, username@),
                        forall|k: int|
                            0 <= k < i ==> !((#[trigger] data@[k]).username is Some
                                && data@[k].username.unwrap()@ == username@),
                    decreases data@.len() - i,
                {
                    match &data[i].username {
                        Some(name) => {
                            if crate::text::same_text(name.as_str(), username) {
                                assert(data@[i as int].username is Some
                                    && data@[i as int].username.unwrap()@ == username@);
                                return true;
                            }
                        },
                        None => {},
                    }
                    i += 1;
                }
                false
            },
            MessageKind::GroupChatCreated => true,
            MessageKind::SupergroupChatCreated => true,
            MessageKind::ChannelChatCreated => true,
            _ => false,
        }
    }

    /// The text message for the bot `bot_username` that `update` is.
    pub fn from_update(bot_username: &str, update: UpdateKind) -> (r: Result<Message, UpdateError>)
        ensures
            match update {
                UpdateKind::Message(Msg { kind: MessageKind::Text { data }, from, chat }) => match r {
                    Ok(Message::Text { nickname, username, chat_id, text }) => {
                        &&& addressed(bot_username@, data@, chat) == Some(text@)
                        &&& nickname == from.first_name
                        &&& username == from.username
                        &&& chat_id == chat.chat_id()
                    },
                    Err(UpdateError::UnrelatedMessage(text)) => {
                        &&& addressed(bot_username@, data@, chat) is None
                        &&& !(chat is Unknown)
                        &&& text@ == trim(data@)
                    },
                    Err(UpdateError::Unsupported(unsupported)) => chat is Unknown && unsupported
                        == chat,
                    Err(UpdateError::Unrelated(_)) => false,
                },
                _ => r == Err::<Message, UpdateError>(UpdateError::Unrelated(update)),
            },
    {
        match update {
            UpdateKind::Message(Msg { kind: MessageKind::Text { data }, from, chat }) => {
                let chat_id = chat.id();
                match Message::parse_text(bot_username, data.as_str(), chat) {
                    Ok(text) => Ok(
                        Message::Text {
                            nickname: from.first_name,
                            username: from.username,
                            chat_id,
                            text,
                        },
                    ),
                    Err(error) => Err(error),
                }
            },
            update => Err(UpdateError::Unrelated(update)),
        }
    }

    /// What the text `text` of the conversation `chat` says to the bot
    /// `username`.
    pub fn parse_text(username: &str, text: &str, chat: MessageChat) -> (r: Result<
        String,
        UpdateError,
    >)
        ensures
            match r {
                Ok(said) => addressed(username@, text@, chat) == Some(said@),
                Err(UpdateError::UnrelatedMessage(unrelated)) => {
                    &&& addressed(username@, text@, chat) is None
                    &&& !(chat is Unknown)
                    &&& unrelated@ == trim(text@)
                },
                Err(UpdateError::Unsupported(unsupported)) => chat is Unknown && unsupported
                    == chat,
                Err(UpdateError::Unrelated(_)) => false,
            },
    {
        let mut prefix: Vec<char> = Vec::new();
        prefix.push('@');
        push_str(&mut prefix, username);
        prefix.push(' ');
        assert(prefix@ == mention(username@));

        let s = chars_of(text);
        let start = skip_whitespace(&s, 0);
        let end = trim_end_from(&s, start);
        let trimmed = string_of(&s, start, end);
        assert(trimmed@ == trim(text@));

        match chat {
            MessageChat::Private(_) => Ok(trimmed),
            MessageChat::Unknown(_) => Err(UpdateError::Unsupported(chat)),
            _ => {
                let t = chars_of(trimmed.as_str());
                if starts_with_at(&t, 0, &prefix) {
                    assert(t@.skip(0) == t@);
                    let from = skip_whitespace(&t, prefix.len());
                    let said = string_of(&t, from, t.len());
                    proof {
                        let rest = t@.skip(prefix@.len() as int);
                        crate::text::lemma_skip_shift(t@, prefix@.len() as int, 0);
                        assert(rest.skip(from - prefix@.len()) == t@.subrange(
                            from as int,
                            t@.len() as int,
                        ));
                    }
                    Ok(said)
                } else {
                    assert(t@.skip(0) == t@);
                    Err(UpdateError::UnrelatedMessage(trimmed))
                }
            },
        }
    }
}

} // verus!
