//! Chat metadata.

use vstd::prelude::*;
use crate::types::packed::{PackedChat, PackedType};

verus! {

/// A user or a bot.
#[derive(Debug, PartialEq, Eq)]
pub struct User {
    pub id: i64,
    pub access_hash: Option<i64>,
    pub bot: bool,
    pub name: Option<String>,
}

/// A small group, or a megagroup.
#[derive(Debug, PartialEq, Eq)]
pub struct Group {
    pub id: i64,
    pub access_hash: Option<i64>,
    pub megagroup: bool,
    pub title: Option<String>,
}

/// A broadcast channel, or a gigagroup.
#[derive(Debug, PartialEq, Eq)]
pub struct Channel {
    pub id: i64,
    pub access_hash: Option<i64>,
    pub gigagroup: bool,
    pub forum: bool,
    pub title: Option<String>,
}

/// What is known of a chat.
#[derive(Debug, PartialEq, Eq)]
pub enum Chat {
    User(User),
    Group(Group),
    Channel(Channel),
}

impl Clone for User {
    fn clone(&self) -> (r: Self)
        ensures
            r == *self,
    {
        User { id: self.id, access_hash: self.access_hash, bot: self.bot, name: self.name.clone() }
    }
}

impl Clone for Group {
    fn clone(&self) -> (r: Self)
        ensures
            r == *self,
    {
        Group {
            id: self.id,
            access_hash: self.access_hash,
            megagroup: self.megagroup,
            title: self.title.clone(),
        }
    }
}

impl Clone for Channel {
    fn clone(&self) -> (r: Self)
        ensures
            r == *self,
    {
        Channel {
            id: self.id,
            access_hash: self.access_hash,
            gigagroup: self.gigagroup,
            forum: self.forum,
            title: self.title.clone(),
        }
    }
}

impl Clone for Chat {
    fn clone(&self) -> (r: Self)
        ensures
            r == *self,
    {
        match self {
            Chat::User(user) => Chat::User(user.clone()),
            Chat::Group(group) => Chat::Group(group.clone()),
            Chat::Channel(channel) => Chat::Channel(channel.clone()),
        }
    }
}

impl Channel {
    /// Whether the channel is organised into forum topics.
    pub fn is_forum(&self) -> (r: bool)
        ensures
            r == self.forum,
    {
        self.forum
    }
}

impl Chat {
    pub open spec fn spec_id(self) -> i64 {
        match self {
            Chat::User(user) => user.id,
            Chat::Group(group) => group.id,
            Chat::Channel(channel) => channel.id,
        }
    }

    pub open spec fn spec_pack(self) -> PackedChat {
        match self {
            Chat::User(user) => PackedChat {
                ty: if user.bot {
                    PackedType::Bot
                } else {
                    PackedType::User
                },
                id: user.id,
                access_hash: user.access_hash,
            },
            Chat::Group(group) => PackedChat {
                ty: if group.megagroup {
                    PackedType::Megagroup
                } else {
                    PackedType::Chat
                },
                id: group.id,
                access_hash: group.access_hash,
            },
            Chat::Channel(channel) => PackedChat {
                ty: if channel.gigagroup {
                    PackedType::Gigagroup
                } else {
                    PackedType::Broadcast
                },
                id: channel.id,
                access_hash: channel.access_hash,
            },
        }
    }

    /// The stand-in for a chat of which only the packed form is known: it
    /// has the kind, the identifier and the access hash of `packed`, no
    /// name, and no forum.
    pub open spec fn spec_unpack(packed: PackedChat) -> Chat {
        match packed.ty {
            PackedType::User | PackedType::Bot => Chat::User(
                User {
                    id: packed.id,
                    access_hash: packed.access_hash,
                    bot: packed.ty == PackedType::Bot,
                    name: None,
                },
            ),
            PackedType::Chat | PackedType::Megagroup => Chat::Group(
                Group {
                    id: packed.id,
                    access_hash: packed.access_hash,
                    megagroup: packed.ty == PackedType::Megagroup,
                    title: None,
                },
            ),
            PackedType::Broadcast | PackedType::Gigagroup => Chat::Channel(
                Channel {
                    id: packed.id,
                    access_hash: packed.access_hash,
                    gigagroup: packed.ty == PackedType::Gigagroup,
                    forum: false,
                    title: None,
                },
            ),
        }
    }

    /// The name of the user, or the title of the group or channel.
    pub open spec fn spec_name(self) -> Option<String> {
        match self {
            Chat::User(user) => user.name,
            Chat::Group(group) => group.title,
            Chat::Channel(channel) => channel.title,
        }
    }

    /// Whether the chat is a forum: a channel with its forum flag set.
    pub open spec fn spec_is_forum(self) -> bool {
        self matches Chat::Channel(channel) && channel.forum
    }

    /// The identifier of the chat.
    pub fn id(&self) -> (r: i64)
        ensures
            r == self.spec_id(),
    {
        match self {
            Chat::User(user) => user.id,
            Chat::Group(group) => group.id,
            Chat::Channel(channel) => channel.id,
        }
    }

    /// The name of the user, or the title of the group or channel.
    pub fn name(&self) -> (r: Option<&str>)
        ensures
            r is Some <==> self.spec_name() is Some,
            r matches Some(name) ==> name@ == self.spec_name().unwrap()@,
    {
        match self {
            Chat::User(user) => match &user.name {
                Some(name) => Some(name.as_str()),
                None => None,
            },
            Chat::Group(group) => match &group.title {
                Some(title) => Some(title.as_str()),
                None => None,
            },
            Chat::Channel(channel) => match &channel.title {
                Some(title) => Some(title.as_str()),
                None => None,
            },
        }
    }

    /// The channel, where the chat is one.
    pub fn as_channel(&self) -> (r: Option<&Channel>)
        ensures
            match *self {
                Chat::Channel(channel) => r == Some(&channel),
                _ => r is None,
            },
    {
        match self {
            Chat::Channel(channel) => Some(channel),
            _ => None,
        }
    }

    /// Whether the chat is a forum.
    pub fn is_forum(&self) -> (r: bool)
        ensures
            r == self.spec_is_forum(),
    {
        match self.as_channel() {
            Some(channel) => channel.is_forum(),
            None => false,
        }
    }

    /// Reduces the chat to its packed form.
    pub fn pack(&self) -> (r: PackedChat)
        ensures
            r == self.spec_pack(),
            r.id == self.spec_id(),
    {
        match self {
            Chat::User(user) => PackedChat {
                ty: if user.bot {
                    PackedType::Bot
                } else {
                    PackedType::User
                },
                id: user.id,
                access_hash: user.access_hash,
            },
            Chat::Group(group) => PackedChat {
                ty: if group.megagroup {
                    PackedType::Megagroup
                } else {
                    PackedType::Chat
                },
                id: group.id,
                access_hash: group.access_hash,
            },
            Chat::Channel(channel) => PackedChat {
                ty: if channel.gigagroup {
                    PackedType::Gigagroup
                } else {
                    PackedType::Broadcast
                },
                id: channel.id,
                access_hash: channel.access_hash,
            },
        }
    }

    /// Synthesises the stand-in for a chat of which only the packed form is
    /// known.
    pub fn unpack(packed: PackedChat) -> (r: Self)
        ensures
            r == Self::spec_unpack(packed),
            r.spec_pack() == packed,
            r.spec_id() == packed.id,
            !r.spec_is_forum(),
    {
        match packed.ty {
            PackedType::User => Chat::User(
                User { id: packed.id, access_hash: packed.access_hash, bot: false, name: None },
            ),
            PackedType::Bot => Chat::User(
                User { id: packed.id, access_hash: packed.access_hash, bot: true, name: None },
            ),
            PackedType::Chat => Chat::Group(
                Group {
                    id: packed.id,
                    access_hash: packed.access_hash,
                    megagroup: false,
                    title: None,
                },
            ),
            PackedType::Megagroup => Chat::Group(
                Group {
                    id: packed.id,
                    access_hash: packed.access_hash,
                    megagroup: true,
                    title: None,
                },
            ),
            PackedType::Broadcast => Chat::Channel(
                Channel {
                    id: packed.id,
                    access_hash: packed.access_hash,
                    gigagroup: false,
                    forum: false,
                    title: None,
                },
            ),
            PackedType::Gigagroup => Chat::Channel(
                Channel {
                    id: packed.id,
                    access_hash: packed.access_hash,
                    gigagroup: true,
                    forum: false,
                    title: None,
                },
            ),
        }
    }
}

/// Packing the stand-in of a packed chat gives the packed chat back, and
/// the stand-in answers to the same chat reference.
pub proof fn lemma_unpack_then_pack(packed: PackedChat)
    ensures
        Chat::spec_unpack(packed).spec_pack() == packed,
        Chat::spec_unpack(packed).spec_pack().spec_to_peer() == packed.spec_to_peer(),
{
}

} // verus!
