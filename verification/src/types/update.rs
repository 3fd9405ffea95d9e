//! Updates: what the server tells the client as it happens.

use std::sync::Arc;
use vstd::prelude::*;
use crate::types::chat_map::ChatMap;
use crate::types::message::Message;
use crate::types::wire;

verus! {

/// An update as it comes off the wire, as far as it concerns messages.
#[derive(Clone, Debug, PartialEq)]
pub enum WireUpdate {
    /// A message arrived.
    NewMessage(wire::Record),
    /// A message was edited.
    MessageEdited(wire::Record),
    /// Anything that does not carry a message.
    Other,
}

/// An update with its message, if it has one, normalised into a snapshot.
#[derive(Clone, Debug, PartialEq)]
pub enum Update {
    /// A message arrived.
    NewMessage(Message),
    /// A message was edited.
    MessageEdited(Message),
    /// Anything that does not carry a message.
    Raw,
}

impl WireUpdate {
    /// The message record that the update carries, if it carries one.
    pub open spec fn spec_record(self) -> Option<wire::Record> {
        match self {
            WireUpdate::NewMessage(record) => Some(record),
            WireUpdate::MessageEdited(record) => Some(record),
            WireUpdate::Other => None,
        }
    }
}

impl Update {
    /// The snapshot that the update carries, if it carries one.
    pub open spec fn spec_message(self) -> Option<Message> {
        match self {
            Update::NewMessage(message) => Some(message),
            Update::MessageEdited(message) => Some(message),
            Update::Raw => None,
        }
    }

    /// Normalises an update. An update about an empty message record is no
    /// update at all; every other update yields exactly one.
    pub fn new(update: WireUpdate, chats: &Arc<ChatMap>) -> (r: Option<Self>)
        ensures
            r is None <==> (update.spec_record() matches Some(record) && record is Empty),
            r matches Some(u) ==> match update {
                WireUpdate::NewMessage(record) => {
                    u matches Update::NewMessage(m) && m.spec_normalises(record, **chats)
                },
                WireUpdate::MessageEdited(record) => {
                    u matches Update::MessageEdited(m) && m.spec_normalises(record, **chats)
                },
                WireUpdate::Other => u == Update::Raw,
            },
    {
        match update {
            WireUpdate::NewMessage(record) => match Message::from_raw(record, chats) {
                Some(message) => Some(Update::NewMessage(message)),
                None => None,
            },
            WireUpdate::MessageEdited(record) => match Message::from_raw(record, chats) {
                Some(message) => Some(Update::MessageEdited(message)),
                None => None,
            },
            WireUpdate::Other => Some(Update::Raw),
        }
    }
}

} // verus!
