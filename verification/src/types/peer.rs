//! Chat references.

use vstd::prelude::*;

verus! {

/// A reference to a chat: the kind of chat and its identifier.
#[derive(Clone, Copy, Debug, PartialEq, Eq, Hash, Structural)]
pub enum Peer {
    User(i64),
    Chat(i64),
    Channel(i64),
}

impl Peer {
    pub open spec fn spec_id(self) -> i64 {
        match self {
            Peer::User(id) => id,
            Peer::Chat(id) => id,
            Peer::Channel(id) => id,
        }
    }

    /// The identifier of the chat, without its kind.
    #[verifier::when_used_as_spec(spec_id)]
    pub fn id(self) -> (r: i64)
        ensures
            r == self.spec_id(),
    {
        match self {
            Peer::User(id) => id,
            Peer::Chat(id) => id,
            Peer::Channel(id) => id,
        }
    }
}

} // verus!
