//! Packed chats: the least that identifies a chat.

use vstd::prelude::*;
use crate::types::peer::Peer;

verus! {

/// The kind of a packed chat.
#[derive(Clone, Copy, Debug, PartialEq, Eq, Hash, Structural)]
pub enum PackedType {
    User,
    Bot,
    Chat,
    Megagroup,
    Broadcast,
    Gigagroup,
}

/// A chat reduced to its kind, its identifier and, where known, the access
/// hash that requests about it need.
#[derive(Clone, Copy, Debug, PartialEq, Eq, Hash, Structural)]
pub struct PackedChat {
    pub ty: PackedType,
    pub id: i64,
    pub access_hash: Option<i64>,
}

/// A channel as requests name it.
#[derive(Clone, Copy, Debug, PartialEq, Eq, Hash, Structural)]
pub struct InputChannel {
    pub channel_id: i64,
    pub access_hash: i64,
}

/// A chat as requests name it.
#[derive(Clone, Copy, Debug, PartialEq, Eq, Hash, Structural)]
pub enum InputPeer {
    /// No chat at all.
    Empty,
    Chat { chat_id: i64 },
    User { user_id: i64, access_hash: i64 },
    Channel { channel_id: i64, access_hash: i64 },
}

/// `grammers_session::PackedChat::to_peer`, on a packed chat of the same
/// kind, identifier and access hash. Its source maps users and bots to a
/// user peer, small groups to a chat peer and the three channel kinds to a
/// channel peer, each with the chat's identifier.
#[verifier::external_body]
fn session_to_peer(chat: PackedChat) -> (r: Peer)
    ensures
        r == chat.spec_to_peer(),
{
    let ty = match chat.ty {
        PackedType::User => grammers_session::PackedType::User,
        PackedType::Bot => grammers_session::PackedType::Bot,
        PackedType::Chat => grammers_session::PackedType::Chat,
        PackedType::Megagroup => grammers_session::PackedType::Megagroup,
        PackedType::Broadcast => grammers_session::PackedType::Broadcast,
        PackedType::Gigagroup => grammers_session::PackedType::Gigagroup,
    };
    match (grammers_session::PackedChat { ty, id: chat.id, access_hash: chat.access_hash }).to_peer() {
        grammers_tl_types::enums::Peer::User(peer) => Peer::User(peer.user_id),
        grammers_tl_types::enums::Peer::Chat(peer) => Peer::Chat(peer.chat_id),
        grammers_tl_types::enums::Peer::Channel(peer) => Peer::Channel(peer.channel_id),
    }
}

/// `grammers_session::PackedChat::try_to_input_channel`, on a packed chat of
/// the same kind, identifier and access hash. Its source gives a channel for
/// the three channel kinds and nothing for the others; the channel has the
/// chat's identifier and its access hash, or the hash 0 where none is known.
#[verifier::external_body]
fn session_try_to_input_channel(chat: PackedChat) -> (r: Option<InputChannel>)
    ensures
        r == chat.spec_try_to_input_channel(),
{
    let ty = match chat.ty {
        PackedType::User => grammers_session::PackedType::User,
        PackedType::Bot => grammers_session::PackedType::Bot,
        PackedType::Chat => grammers_session::PackedType::Chat,
        PackedType::Megagroup => grammers_session::PackedType::Megagroup,
        PackedType::Broadcast => grammers_session::PackedType::Broadcast,
        PackedType::Gigagroup => grammers_session::PackedType::Gigagroup,
    };
    let packed = grammers_session::PackedChat { ty, id: chat.id, access_hash: chat.access_hash };
    match packed.try_to_input_channel() {
        Some(grammers_tl_types::enums::InputChannel::Channel(c)) => Some(
            InputChannel { channel_id: c.channel_id, access_hash: c.access_hash },
        ),
        _ => None,
    }
}

/// `grammers_session::PackedChat::to_input_peer`, on a packed chat of the
/// same kind, identifier and access hash. Its source gives a user for users
/// and bots, a chat for small groups and a channel for the three channel
/// kinds, each with the chat's identifier; users and channels have the
/// chat's access hash, or the hash 0 where none is known.
#[verifier::external_body]
fn session_to_input_peer(chat: PackedChat) -> (r: InputPeer)
    ensures
        r == chat.spec_to_input_peer(),
{
    let ty = match chat.ty {
        PackedType::User => grammers_session::PackedType::User,
        PackedType::Bot => grammers_session::PackedType::Bot,
        PackedType::Chat => grammers_session::PackedType::Chat,
        PackedType::Megagroup => grammers_session::PackedType::Megagroup,
        PackedType::Broadcast => grammers_session::PackedType::Broadcast,
        PackedType::Gigagroup => grammers_session::PackedType::Gigagroup,
    };
    match (grammers_session::PackedChat { ty, id: chat.id, access_hash: chat.access_hash }).to_input_peer() {
        grammers_tl_types::enums::InputPeer::Chat(p) => InputPeer::Chat { chat_id: p.chat_id },
        grammers_tl_types::enums::InputPeer::User(p) => InputPeer::User { user_id: p.user_id, access_hash: p.access_hash },
        grammers_tl_types::enums::InputPeer::Channel(p) => InputPeer::Channel { channel_id: p.channel_id, access_hash: p.access_hash },
        _ => InputPeer::Empty,
    }
}

impl PackedChat {
    /// The access hash, or 0 where none is known.
    pub open spec fn spec_hash_or_zero(self) -> i64 {
        match self.access_hash {
            Some(access_hash) => access_hash,
            None => 0,
        }
    }

    /// Whether the chat is a channel of any kind.
    pub open spec fn spec_is_channel(self) -> bool {
        self.ty == PackedType::Megagroup || self.ty == PackedType::Broadcast || self.ty
            == PackedType::Gigagroup
    }

    /// The chat as a channel, if it is one.
    pub open spec fn spec_try_to_input_channel(self) -> Option<InputChannel> {
        if self.spec_is_channel() {
            Some(InputChannel { channel_id: self.id, access_hash: self.spec_hash_or_zero() })
        } else {
            None
        }
    }

    /// The chat as requests name it.
    pub open spec fn spec_to_input_peer(self) -> InputPeer {
        match self.ty {
            PackedType::User | PackedType::Bot => InputPeer::User {
                user_id: self.id,
                access_hash: self.spec_hash_or_zero(),
            },
            PackedType::Chat => InputPeer::Chat { chat_id: self.id },
            PackedType::Megagroup | PackedType::Broadcast | PackedType::Gigagroup => InputPeer::Channel {
                channel_id: self.id,
                access_hash: self.spec_hash_or_zero(),
            },
        }
    }

    /// The reference under which messages name this chat.
    pub open spec fn spec_to_peer(self) -> Peer {
        match self.ty {
            PackedType::User | PackedType::Bot => Peer::User(self.id),
            PackedType::Chat => Peer::Chat(self.id),
            PackedType::Megagroup | PackedType::Broadcast | PackedType::Gigagroup => Peer::Channel(
                self.id,
            ),
        }
    }

    /// The packed chat that stands for `peer` when nothing else is known of
    /// the chat: no access hash, and the plainest kind that the reference
    /// allows.
    pub open spec fn spec_from_peer(peer: Peer) -> PackedChat {
        match peer {
            Peer::User(id) => PackedChat { ty: PackedType::User, id, access_hash: None },
            Peer::Chat(id) => PackedChat { ty: PackedType::Chat, id, access_hash: None },
            Peer::Channel(id) => PackedChat { ty: PackedType::Broadcast, id, access_hash: None },
        }
    }

    /// Converts the packed chat into the reference that messages carry.
    pub fn to_peer(&self) -> (r: Peer)
        ensures
            r == self.spec_to_peer(),
            r.spec_id() == self.id,
    {
        session_to_peer(*self)
    }

    /// Converts the packed chat into the channel that requests name, if it
    /// is a channel.
    pub fn try_to_input_channel(&self) -> (r: Option<InputChannel>)
        ensures
            r == self.spec_try_to_input_channel(),
            r is Some <==> self.spec_is_channel(),
    {
        session_try_to_input_channel(*self)
    }

    /// Converts the packed chat into the chat that requests name.
    pub fn to_input_peer(&self) -> (r: InputPeer)
        ensures
            r == self.spec_to_input_peer(),
            !(r is Empty),
    {
        session_to_input_peer(*self)
    }

    /// Packs a bare chat reference.
    pub fn from_peer(peer: Peer) -> (r: Self)
        ensures
            r == Self::spec_from_peer(peer),
            r.spec_to_peer() == peer,
    {
        match peer {
            Peer::User(id) => PackedChat { ty: PackedType::User, id, access_hash: None },
            Peer::Chat(id) => PackedChat { ty: PackedType::Chat, id, access_hash: None },
            Peer::Channel(id) => PackedChat { ty: PackedType::Broadcast, id, access_hash: None },
        }
    }
}

} // verus!
