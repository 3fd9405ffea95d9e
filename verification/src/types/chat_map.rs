//! The chat registry that snapshots share.
//!
//! One server response names many chats. They are collected once into a
//! registry, which is never changed afterwards, and every snapshot made from
//! that response holds a shared handle to it.

use std::collections::HashMap;
use std::sync::Arc;
use vstd::prelude::*;
use crate::types::chat::Chat;
use crate::types::packed::PackedChat;
use crate::types::peer::Peer;

verus! {

/// An immutable table from chat identifier to chat metadata.
#[derive(Debug, PartialEq)]
pub struct ChatMap {
    map: HashMap<i64, Chat>,
}

impl View for ChatMap {
    type V = Map<i64, Chat>;

    closed spec fn view(&self) -> Map<i64, Chat> {
        self.map@
    }
}

impl ChatMap {
    /// Every chat is filed under its own identifier.
    #[verifier::type_invariant]
    spec fn keyed_by_id(self) -> bool {
        forall|id: i64| #[trigger] self.map@.contains_key(id) ==> self.map@[id].spec_id() == id
    }

    /// The table that holds `chats`, each under its identifier. Where two
    /// chats share an identifier the later one stays.
    pub open spec fn spec_collect(chats: Seq<Chat>) -> Map<i64, Chat>
        decreases chats.len(),
    {
        if chats.len() == 0 {
            Map::empty()
        } else {
            Self::spec_collect(chats.drop_last()).insert(chats.last().spec_id(), chats.last())
        }
    }

    /// What a lookup of `peer` gives: the chat filed under the identifier
    /// of `peer`, or else the stand-in made from the bare reference.
    pub open spec fn spec_lookup(self, peer: Peer) -> Chat {
        if self@.contains_key(peer.spec_id()) {
            self@[peer.spec_id()]
        } else {
            Chat::spec_unpack(PackedChat::spec_from_peer(peer))
        }
    }

    /// Collects the chats of one response into a registry.
    pub fn new(chats: Vec<Chat>) -> (r: Arc<Self>)
        ensures
            r@ == Self::spec_collect(chats@),
    {
        let mut map: HashMap<i64, Chat> = HashMap::new();
        let mut i: usize = 0;
        while i < chats.len()
            invariant
                i <= chats.len(),
                map@ == Self::spec_collect(chats@.take(i as int)),
                forall|id: i64| #[trigger] map@.contains_key(id) ==> map@[id].spec_id() == id,
            decreases chats.len() - i,
        {
            let chat = chats[i].clone();
            proof {
                assert(chats@.take(i + 1).drop_last() == chats@.take(i as int));
                assert(chats@.take(i + 1).last() == chats@[i as int]);
            }
            map.insert(chat.id(), chat);
            i += 1;
        }
        proof {
            assert(chats@.take(i as int) == chats@);
        }
        Arc::new(ChatMap { map })
    }

    /// The registry that holds one chat.
    pub fn single(chat: Chat) -> (r: Arc<Self>)
        ensures
            r@ == Map::<i64, Chat>::empty().insert(chat.spec_id(), chat),
    {
        let mut map: HashMap<i64, Chat> = HashMap::new();
        map.insert(chat.id(), chat);
        Arc::new(ChatMap { map })
    }

    /// The number of chats in the registry.
    pub fn len(&self) -> (r: usize)
        ensures
            r == self@.len(),
    {
        self.map.len()
    }

    /// The chat filed under the identifier of `peer`, if there is one.
    pub fn get(&self, peer: &Peer) -> (r: Option<&Chat>)
        ensures
            match r {
                Some(chat) => self@.contains_key(peer.spec_id()) && *chat == self@[peer.spec_id()]
                    && chat.spec_id() == peer.spec_id(),
                None => !self@.contains_key(peer.spec_id()),
            },
    {
        proof {
            use_type_invariant(self);
        }
        let id = peer.id();
        self.map.get(&id)
    }

    /// Looks a chat up. The lookup never fails: a reference that the
    /// registry does not hold is answered with a synthesised stand-in.
    pub fn lookup(&self, peer: &Peer) -> (r: Chat)
        ensures
            r == self.spec_lookup(*peer),
            r.spec_id() == peer.spec_id(),
    {
        match self.get(peer) {
            Some(chat) => chat.clone(),
            None => Chat::unpack(PackedChat::from_peer(*peer)),
        }
    }
}

/// The last of `chats` that has the identifier `id`, if any has it.
pub open spec fn spec_last_with_id(chats: Seq<Chat>, id: i64) -> Option<Chat>
    decreases chats.len(),
{
    if chats.len() == 0 {
        None
    } else if chats.last().spec_id() == id {
        Some(chats.last())
    } else {
        spec_last_with_id(chats.drop_last(), id)
    }
}

/// The registry collected from `chats` holds, under every identifier that
/// occurs among them, the last chat that has it, and holds nothing under
/// any other identifier.
pub proof fn law_registry_holds_the_last_of_each(chats: Seq<Chat>, id: i64)
    ensures
        match spec_last_with_id(chats, id) {
            Some(chat) => {
                &&& ChatMap::spec_collect(chats).contains_key(id)
                &&& ChatMap::spec_collect(chats)[id] == chat
                &&& chat.spec_id() == id
            },
            None => !ChatMap::spec_collect(chats).contains_key(id),
        },
    decreases chats.len(),
{
    if chats.len() > 0 {
        law_registry_holds_the_last_of_each(chats.drop_last(), id);
    }
}

/// Every chat that went into a registry is found there again under its own
/// reference: the lookup gives a chat with that identifier that was among
/// those collected, never a stand-in.
pub proof fn law_every_collected_chat_is_found(chats: Seq<Chat>, i: int)
    requires
        0 <= i < chats.len(),
    ensures
        ChatMap::spec_collect(chats).contains_key(chats[i].spec_id()),
        ChatMap::spec_collect(chats)[chats[i].spec_id()].spec_id() == chats[i].spec_id(),
        exists|j: int|
            i <= j < chats.len() && ChatMap::spec_collect(chats)[chats[i].spec_id()]
                == #[trigger] chats[j],
    decreases chats.len(),
{
    let last = chats.len() - 1;
    if chats.last().spec_id() == chats[i].spec_id() {
        assert(ChatMap::spec_collect(chats)[chats[i].spec_id()] == chats[last]);
    } else {
        let init = chats.drop_last();
        law_every_collected_chat_is_found(init, i);
        let j = choose|j: int|
            i <= j < init.len() && ChatMap::spec_collect(init)[init[i].spec_id()] == #[trigger] init[j];
        assert(init[j] == chats[j]);
        assert(ChatMap::spec_collect(chats)[chats[i].spec_id()] == chats[j]);
    }
}

} // verus!
