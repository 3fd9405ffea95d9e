//! A handler's decisions: answering only in chosen forum topics.
//!
//! The handler echoes incoming messages, but only those that belong to one
//! of the topics it was told to serve. Printing and sending are the
//! caller's work; what to do with an update is decided here.

use vstd::prelude::*;
use vstd::string::StringExecFns;
use crate::text::{push_decimal, spec_decimal};
use crate::types::message::Message;
use crate::types::topic::contains_id;
use crate::types::update::Update;

verus! {

/// What the handler does with an update.
#[derive(Clone, Copy, Debug, PartialEq, Eq, Structural)]
pub enum Handling {
    /// Not a new incoming message: nothing is done.
    Skip,
    /// The message is not flagged as a forum-topic message.
    NotForum,
    /// The message is flagged, but which topic it belongs to is unknown.
    UnknownTopic,
    /// The message belongs to this topic, which is not served.
    NotAllowed(i32),
    /// The message belongs to this topic, which is served: answer it.
    Respond(i32),
}

/// What the handler does with `update` when it serves `allowed_topics`.
pub open spec fn spec_handle_update(update: Update, allowed_topics: Seq<i32>) -> Handling {
    match update {
        Update::NewMessage(message) => if message.raw.out {
            Handling::Skip
        } else {
            match message.spec_reply_descriptor() {
                Some(descriptor) => if !descriptor.forum_topic {
                    Handling::NotForum
                } else {
                    match descriptor.spec_topic_id() {
                        Some(topic_id) => if allowed_topics.contains(topic_id) {
                            Handling::Respond(topic_id)
                        } else {
                            Handling::NotAllowed(topic_id)
                        },
                        None => Handling::UnknownTopic,
                    }
                },
                None => Handling::NotForum,
            }
        },
        _ => Handling::Skip,
    }
}

/// The answer to `message` in topic `topic_id`.
pub open spec fn spec_response_text(message: Message, topic_id: i32) -> Seq<char> {
    "You said: "@ + message.raw.message@ + " (in topic "@ + spec_decimal(topic_id as int) + ")"@
}

/// Decides what to do with an update.
///
/// Only new messages that somebody else sent are looked at. Of those, a
/// message is answered if and only if it is flagged as a forum-topic
/// message, its topic is known, and the topic is one of `allowed_topics`.
pub fn handle_update(update: &Update, allowed_topics: &[i32]) -> (r: Handling)
    ensures
        r == spec_handle_update(*update, allowed_topics@),
        r matches Handling::Respond(topic_id) ==> update matches Update::NewMessage(message)
            && !message.raw.out && message.spec_topic_id() == Some(topic_id)
            && allowed_topics@.contains(topic_id),
{
    match update {
        Update::NewMessage(message) => {
            if message.outgoing() {
                Handling::Skip
            } else if message.is_forum_topic() {
                match message.topic_id() {
                    Some(topic_id) => {
                        if contains_id(allowed_topics, topic_id) {
                            Handling::Respond(topic_id)
                        } else {
                            Handling::NotAllowed(topic_id)
                        }
                    },
                    None => Handling::UnknownTopic,
                }
            } else {
                Handling::NotForum
            }
        },
        _ => Handling::Skip,
    }
}

/// Writes the answer to a message in a served topic.
pub fn response_text(message: &Message, topic_id: i32) -> (r: String)
    ensures
        r@ == spec_response_text(*message, topic_id),
{
    let mut out = String::from_str("You said: ");
    out.append(message.text());
    out.append(" (in topic ");
    push_decimal(&mut out, topic_id);
    out.append(")");
    out
}

} // verus!
