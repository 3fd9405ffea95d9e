//! Message snapshots.
//!
//! A [`Message`] is what a message was when it was observed. It is made
//! once, from a wire record of any of the three shapes, and never changes:
//! refreshing a message means making a new snapshot.

use std::sync::Arc;
use vstd::prelude::*;
use vstd::string::StringExecFns;
use crate::schema::{utc_datetime, utc_from_timestamp};
use crate::text::{push_bool, push_decimal, push_option, spec_bool, spec_decimal, spec_option};
use crate::types::chat::Chat;
use crate::types::chat_map::ChatMap;
use crate::types::packed::{InputChannel, InputPeer, PackedChat};
use crate::types::peer::Peer;
use crate::types::topic::{contains_id, ReplyDescriptor};
use crate::types::wire;
use chrono::NaiveDateTime;
use grammers_tl_types::enums::{
    MessageAction, MessageEntity, MessageFwdHeader, MessageMedia, ReplyMarkup, RestrictionReason,
};

verus! {

/// A message as it was when it was observed: a text message, a message with
/// media, or a service message.
///
/// Service messages are trimmed-down messages with an action. They are held
/// as messages, with the action beside them, so that every query reads the
/// same fields whatever shape the record had.
#[derive(Clone, Debug, PartialEq)]
pub struct Message {
    pub raw: wire::Message,
    pub raw_action: Option<MessageAction>,
    pub chats: Arc<ChatMap>,
}

impl wire::Message {
    /// A service record as a message with the text `text`: what the service
    /// shape carries is kept, everything else is as in the bare record.
    pub open spec fn spec_from_service(service: wire::MessageService, text: String) -> wire::Message {
        wire::Message {
            out: service.out,
            mentioned: service.mentioned,
            media_unread: service.media_unread,
            silent: service.silent,
            post: service.post,
            legacy: service.legacy,
            from_id: service.from_id,
            reply_to: service.reply_to,
            ttl_period: service.ttl_period,
            ..Self::spec_bare(service.id, service.peer_id, service.date, text)
        }
    }

    /// The message that a short acknowledgement stands for: the server's
    /// acknowledgement gives identifier, date, direction, media, entities
    /// and lifetime; the request gives text, markup and the two flags that
    /// the sender chose; a reply target becomes a header without topic
    /// information; everything else is as in the bare record.
    pub open spec fn spec_from_short_sent(
        updates: wire::UpdateShortSentMessage,
        input: wire::InputMessage,
        peer_id: Peer,
    ) -> wire::Message {
        wire::Message {
            out: updates.out,
            silent: input.silent,
            invert_media: input.invert_media,
            reply_to: match input.reply_to {
                Some(reply_to_msg_id) => Some(wire::MessageReplyHeader::spec_local(reply_to_msg_id)),
                None => None,
            },
            media: updates.media,
            reply_markup: input.reply_markup,
            entities: updates.entities,
            ttl_period: updates.ttl_period,
            ..Self::spec_bare(updates.id, peer_id, updates.date, input.text)
        }
    }
}

impl Message {
    /// The registry of chats that this snapshot was made with.
    pub open spec fn chat_map(self) -> ChatMap {
        *self.chats
    }

    /// Whether this snapshot is what the record `message` normalises to,
    /// given the registry `chats`.
    ///
    /// A full message is kept as it is, with no action. A service message
    /// keeps what its shape carries, has the empty text, every other field
    /// as in the bare record, and its action beside it. An empty record
    /// normalises to nothing.
    pub open spec fn spec_normalises(self, message: wire::Record, chats: ChatMap) -> bool {
        &&& self.chat_map() == chats
        &&& match message {
            wire::Record::Empty(_) => false,
            wire::Record::Message(full) => self.raw == full && self.raw_action is None,
            wire::Record::Service(service) => {
                &&& self.raw == wire::Message::spec_from_service(service, self.raw.message)
                &&& self.raw.message@ == Seq::<char>::empty()
                &&& self.raw_action == Some(service.action)
            },
        }
    }

    /// Normalises a wire record into a snapshot.
    ///
    /// An empty record yields nothing, even though it has an identifier. A
    /// full message is taken as it is. A service message becomes a message
    /// without text whose action is kept beside it.
    pub fn from_raw(message: wire::Record, chats: &Arc<ChatMap>) -> (r: Option<Self>)
        ensures
            r is None <==> message is Empty,
            r matches Some(m) ==> m.spec_normalises(message, **chats),
    {
        match message {
            wire::Record::Empty(_) => None,
            wire::Record::Message(msg) => Some(
                Message { raw: msg, raw_action: None, chats: Arc::clone(chats) },
            ),
            wire::Record::Service(msg) => Some(
                Message {
                    raw: wire::Message {
                        out: msg.out,
                        mentioned: msg.mentioned,
                        media_unread: msg.media_unread,
                        silent: msg.silent,
                        post: msg.post,
                        from_scheduled: false,
                        legacy: msg.legacy,
                        edit_hide: false,
                        pinned: false,
                        noforwards: false,
                        invert_media: false,
                        offline: false,
                        video_processing_pending: false,
                        id: msg.id,
                        from_id: msg.from_id,
                        from_boosts_applied: None,
                        peer_id: msg.peer_id,
                        saved_peer_id: None,
                        fwd_from: None,
                        via_bot_id: None,
                        via_business_bot_id: None,
                        reply_to: msg.reply_to,
                        date: msg.date,
                        message: String::new(),
                        media: None,
                        reply_markup: None,
                        entities: None,
                        views: None,
                        forwards: None,
                        replies: None,
                        edit_date: None,
                        post_author: None,
                        grouped_id: None,
                        reactions: None,
                        restriction_reason: None,
                        ttl_period: msg.ttl_period,
                        quick_reply_shortcut_id: None,
                        effect: None,
                        factcheck: None,
                        report_delivery_until_date: None,
                    },
                    raw_action: Some(msg.action),
                    chats: Arc::clone(chats),
                },
            ),
        }
    }

    /// Makes the snapshot of a message that this client sent, from the
    /// request as it was issued and the server's short acknowledgement.
    ///
    /// The acknowledgement does not say whether the message went into a
    /// forum topic, so the snapshot is never flagged as a forum-topic
    /// message. Its registry holds the stand-in of the chat it was sent to.
    pub fn from_raw_short_updates(
        updates: wire::UpdateShortSentMessage,
        input: wire::InputMessage,
        chat: PackedChat,
    ) -> (r: Self)
        ensures
            r.raw == wire::Message::spec_from_short_sent(updates, input, chat.spec_to_peer()),
            r.raw_action is None,
            r.chat_map()@ == Map::<i64, Chat>::empty().insert(chat.id, Chat::spec_unpack(chat)),
            r.chat_map().spec_lookup(r.raw.peer_id) == Chat::spec_unpack(chat),
            r.spec_reply_descriptor() == match input.reply_to {
                Some(reply_to_msg_id) => Some(
                    ReplyDescriptor {
                        forum_topic: false,
                        reply_to_top_id: None,
                        reply_to_msg_id: Some(reply_to_msg_id),
                    },
                ),
                None => None,
            },
            r.spec_topic_id() is None,
    {
        let reply_to = match input.reply_to {
            Some(reply_to_msg_id) => Some(wire::MessageReplyHeader::local(reply_to_msg_id)),
            None => None,
        };
        Message {
            raw: wire::Message {
                out: updates.out,
                mentioned: false,
                media_unread: false,
                silent: input.silent,
                post: false,
                from_scheduled: false,
                legacy: false,
                edit_hide: false,
                pinned: false,
                noforwards: false,
                invert_media: input.invert_media,
                offline: false,
                video_processing_pending: false,
                id: updates.id,
                from_id: None,
                from_boosts_applied: None,
                peer_id: chat.to_peer(),
                saved_peer_id: None,
                fwd_from: None,
                via_bot_id: None,
                via_business_bot_id: None,
                reply_to,
                date: updates.date,
                message: input.text,
                media: updates.media,
                reply_markup: input.reply_markup,
                entities: updates.entities,
                views: None,
                forwards: None,
                replies: None,
                edit_date: None,
                post_author: None,
                grouped_id: None,
                reactions: None,
                restriction_reason: None,
                ttl_period: updates.ttl_period,
                quick_reply_shortcut_id: None,
                effect: None,
                factcheck: None,
                report_delivery_until_date: None,
            },
            raw_action: None,
            chats: ChatMap::single(Chat::unpack(chat)),
        }
    }

    /// The reply descriptor of the message: nothing where the message has
    /// no reply header, which is not the same as a header without fields.
    pub open spec fn spec_reply_descriptor(self) -> Option<ReplyDescriptor> {
        match self.raw.reply_to {
            Some(header) => Some(header.spec_descriptor()),
            None => None,
        }
    }

    /// The forum topic of the message: that of its reply descriptor, and
    /// nothing where it has none.
    pub open spec fn spec_topic_id(self) -> Option<i32> {
        match self.spec_reply_descriptor() {
            Some(descriptor) => descriptor.spec_topic_id(),
            None => None,
        }
    }

    /// Who sent the message, as a chat reference: the sender that the record
    /// names, or else, for an incoming message of a private conversation,
    /// the other side of the conversation.
    pub open spec fn spec_sender_peer(self) -> Option<Peer> {
        if self.raw.from_id is Some {
            self.raw.from_id
        } else if !self.raw.out && self.raw.peer_id is User {
            Some(self.raw.peer_id)
        } else {
            None
        }
    }

    /// The reply descriptor that topic resolution reads.
    pub fn reply_descriptor(&self) -> (r: Option<ReplyDescriptor>)
        ensures
            r == self.spec_reply_descriptor(),
            r is None <==> self.raw.reply_to is None,
    {
        match &self.raw.reply_to {
            Some(header) => Some(header.descriptor()),
            None => None,
        }
    }

    /// The chat where this message was sent to.
    ///
    /// This is the user on the other side of a private conversation, or the
    /// group or channel. A chat that the registry does not hold is answered
    /// with its stand-in.
    pub fn chat(&self) -> (r: Chat)
        ensures
            r == self.chat_map().spec_lookup(self.raw.peer_id),
            r.spec_id() == self.raw.peer_id.spec_id(),
    {
        self.chats.lookup(&self.raw.peer_id)
    }

    /// The sender of this message, if any.
    pub fn sender(&self) -> (r: Option<Chat>)
        ensures
            r == match self.spec_sender_peer() {
                Some(peer) => Some(self.chat_map().spec_lookup(peer)),
                None => None,
            },
    {
        match &self.raw.from_id {
            Some(from) => Some(self.chats.lookup(from)),
            None => {
                let private = match self.raw.peer_id {
                    Peer::User(_) => true,
                    _ => false,
                };
                if !self.raw.out && private {
                    Some(self.chats.lookup(&self.raw.peer_id))
                } else {
                    None
                }
            },
        }
    }
}

/// The request that marks a chat as read up to one message.
#[derive(Clone, Copy, Debug, PartialEq, Eq, Structural)]
pub enum ReadHistory {
    /// The request for channels of any kind.
    Channel { channel: InputChannel, max_id: i32 },
    /// The request for every other chat.
    Messages { peer: InputPeer, max_id: i32 },
}

/// A service record normalises to a message without text, media, markup,
/// entities, counters, edit date or group, that is neither scheduled nor
/// pinned nor marked as edited: whatever the service shape does not carry
/// is off or absent, whatever the record held.
pub proof fn law_service_fields_default(service: wire::MessageService, m: Message, chats: ChatMap)
    requires
        m.spec_normalises(wire::Record::Service(service), chats),
    ensures
        m.raw.message@.len() == 0,
        m.raw_action == Some(service.action),
        !m.raw.from_scheduled && !m.raw.edit_hide && !m.raw.pinned && !m.raw.noforwards
            && !m.raw.invert_media && !m.raw.offline && !m.raw.video_processing_pending,
        m.raw.from_boosts_applied is None && m.raw.saved_peer_id is None && m.raw.fwd_from is None
            && m.raw.via_bot_id is None && m.raw.via_business_bot_id is None,
        m.raw.media is None && m.raw.reply_markup is None && m.raw.entities is None,
        m.raw.views is None && m.raw.forwards is None && m.raw.replies is None
            && m.raw.reactions is None,
        m.raw.edit_date is None && m.raw.post_author is None && m.raw.grouped_id is None
            && m.raw.restriction_reason is None,
        m.raw.quick_reply_shortcut_id is None && m.raw.effect is None && m.raw.factcheck is None
            && m.raw.report_delivery_until_date is None,
        m.raw.out == service.out && m.raw.mentioned == service.mentioned && m.raw.media_unread
            == service.media_unread && m.raw.silent == service.silent && m.raw.post
            == service.post && m.raw.legacy == service.legacy,
        m.raw.id == service.id && m.raw.from_id == service.from_id && m.raw.peer_id
            == service.peer_id && m.raw.reply_to == service.reply_to && m.raw.date == service.date
            && m.raw.ttl_period == service.ttl_period,
{
}

/// Topic membership is a property of the reply header alone: two snapshots
/// with the same reply header belong to the same topic, whatever their
/// chats and whatever their registries hold.
pub proof fn law_topic_ignores_the_chat(a: Message, b: Message)
    requires
        a.raw.reply_to == b.raw.reply_to,
    ensures
        a.spec_topic_id() == b.spec_topic_id(),
{
}

impl Message {
    /// Whether the message is outgoing (this client sent it to some chat) or
    /// incoming (somebody else sent it).
    pub fn outgoing(&self) -> (r: bool)
        ensures
            r == self.raw.out,
    {
        self.raw.out
    }

    /// Whether this client's user was mentioned in the message: by name, in
    /// the text, or by a reply to one of their messages.
    pub fn mentioned(&self) -> (r: bool)
        ensures
            r == self.raw.mentioned,
    {
        self.raw.mentioned
    }

    /// Whether the media of the message has not been read yet, such as a
    /// voice note that was not played.
    pub fn media_unread(&self) -> (r: bool)
        ensures
            r == self.raw.media_unread,
    {
        self.raw.media_unread
    }

    /// Whether the message notifies without sound.
    pub fn silent(&self) -> (r: bool)
        ensures
            r == self.raw.silent,
    {
        self.raw.silent
    }

    /// Whether the message is a post in a broadcast channel.
    pub fn post(&self) -> (r: bool)
        ensures
            r == self.raw.post,
    {
        self.raw.post
    }

    /// Whether the message came out of a previously scheduled message.
    pub fn from_scheduled(&self) -> (r: bool)
        ensures
            r == self.raw.from_scheduled,
    {
        self.raw.from_scheduled
    }

    /// Whether the mark that the message was edited should stay hidden.
    pub fn edit_hide(&self) -> (r: bool)
        ensures
            r == self.raw.edit_hide,
    {
        self.raw.edit_hide
    }

    /// Whether the message is currently pinned.
    pub fn pinned(&self) -> (r: bool)
        ensures
            r == self.raw.pinned,
    {
        self.raw.pinned
    }

    /// The identifier of the message.
    ///
    /// Identifiers count up from 1 within one chat's counter: every channel
    /// has its own, and every account has one more for its private
    /// conversations and small groups. An identifier is therefore unique
    /// within its chat only.
    pub fn id(&self) -> (r: i32)
        ensures
            r == self.raw.id,
    {
        self.raw.id
    }

    /// If the message was forwarded, the header that says where from.
    pub fn forward_header(&self) -> (r: Option<MessageFwdHeader>)
        ensures
            r == self.raw.fwd_from,
    {
        self.raw.fwd_from.clone()
    }

    /// If the message was sent through an inline bot, the bot's identifier.
    pub fn via_bot_id(&self) -> (r: Option<i64>)
        ensures
            r == self.raw.via_bot_id,
    {
        self.raw.via_bot_id
    }

    /// If the message replies to something, the header that says to what.
    pub fn reply_header(&self) -> (r: Option<&wire::MessageReplyHeader>)
        ensures
            match r {
                Some(header) => self.raw.reply_to == Some(*header),
                None => self.raw.reply_to is None,
            },
    {
        self.raw.reply_to.as_ref()
    }

    /// The date when the message was produced, in UTC: the calendar date
    /// and time that lie `raw.date` seconds after the start of 1970.
    pub fn date(&self) -> (r: Option<NaiveDateTime>)
        ensures
            r == utc_datetime(self.raw.date as int),
    {
        utc_from_timestamp(self.raw.date)
    }

    /// The text of the message: empty for a service message, the caption
    /// for a message with media.
    pub fn text(&self) -> (r: &str)
        ensures
            r@ == self.raw.message@,
    {
        self.raw.message.as_str()
    }

    /// The media of the message, if any: a photo, a video, a contact, a
    /// poll, a document, a location and so on.
    pub fn media(&self) -> (r: Option<MessageMedia>)
        ensures
            r == self.raw.media,
    {
        self.raw.media.clone()
    }

    /// The markup that a bot attached to the message, if any.
    pub fn reply_markup(&self) -> (r: Option<ReplyMarkup>)
        ensures
            r == self.raw.reply_markup,
    {
        self.raw.reply_markup.clone()
    }

    /// The formatting entities of the text, with their offsets and lengths.
    pub fn fmt_entities(&self) -> (r: Option<&Vec<MessageEntity>>)
        ensures
            match r {
                Some(entities) => self.raw.entities == Some(*entities),
                None => self.raw.entities is None,
            },
    {
        self.raw.entities.as_ref()
    }

    /// How often the message was viewed, where that is counted.
    pub fn view_count(&self) -> (r: Option<i32>)
        ensures
            r == self.raw.views,
    {
        self.raw.views
    }

    /// How often the message was forwarded, where that is counted.
    pub fn forward_count(&self) -> (r: Option<i32>)
        ensures
            r == self.raw.forwards,
    {
        self.raw.forwards
    }

    /// How many replies the message has, where that is counted.
    pub fn reply_count(&self) -> (r: Option<i32>)
        ensures
            r == match self.raw.replies {
                Some(replies) => Some(replies.replies),
                None => None,
            },
    {
        match &self.raw.replies {
            None => None,
            Some(replies) => Some(replies.replies),
        }
    }

    /// How many reactions the message has, where that is counted: the sum
    /// over all reactions of how often each was given. The sum is taken in
    /// 32 bits and wraps around where it does not fit.
    pub fn reaction_count(&self) -> (r: Option<i32>)
        ensures
            r == match self.raw.reactions {
                Some(reactions) => Some(reactions.spec_count()),
                None => None,
            },
            self.raw.reactions matches Some(reactions) ==> (i32::MIN <= wire::spec_total(
                reactions.results@,
            ) <= i32::MAX ==> r == Some(wire::spec_total(reactions.results@) as i32)),
    {
        match &self.raw.reactions {
            None => None,
            Some(reactions) => Some(reactions.total()),
        }
    }

    /// The date when the message was last edited, in UTC.
    pub fn edit_date(&self) -> (r: Option<NaiveDateTime>)
        ensures
            r == match self.raw.edit_date {
                Some(date) => utc_datetime(date as int),
                None => None,
            },
    {
        match self.raw.edit_date {
            Some(date) => utc_from_timestamp(date),
            None => None,
        }
    }

    /// If the message was posted to a channel, the name that its author
    /// signed it with.
    pub fn post_author(&self) -> (r: Option<&str>)
        ensures
            r.is_some() == self.raw.post_author.is_some(),
            r matches Some(author) ==> author@ == self.raw.post_author.unwrap()@,
    {
        match &self.raw.post_author {
            Some(author) => Some(author.as_str()),
            None => None,
        }
    }

    /// If the message belongs to a group of messages, such as an album, the
    /// identifier of that group.
    pub fn grouped_id(&self) -> (r: Option<i64>)
        ensures
            r == self.raw.grouped_id,
    {
        self.raw.grouped_id
    }

    /// The reasons why the message is restricted; nothing if it is not.
    pub fn restriction_reason(&self) -> (r: Option<&Vec<RestrictionReason>>)
        ensures
            match r {
                Some(reasons) => self.raw.restriction_reason == Some(*reasons),
                None => self.raw.restriction_reason is None,
            },
    {
        self.raw.restriction_reason.as_ref()
    }

    /// If the message is a service message, the action that it reports.
    pub fn action(&self) -> (r: Option<&MessageAction>)
        ensures
            match r {
                Some(action) => self.raw_action == Some(*action),
                None => self.raw_action is None,
            },
    {
        self.raw_action.as_ref()
    }

    /// If the message replies to another message, that message's
    /// identifier.
    pub fn reply_to_message_id(&self) -> (r: Option<i32>)
        ensures
            r == match self.spec_reply_descriptor() {
                Some(descriptor) => descriptor.reply_to_msg_id,
                None => None,
            },
    {
        match self.reply_descriptor() {
            Some(descriptor) => descriptor.reply_to_msg_id,
            None => None,
        }
    }

    /// Whether the reply header flags the message as a forum-topic message.
    ///
    /// This is a property of the message. Whether the chat is a forum is
    /// another matter, and is not asked here.
    pub fn is_forum_topic(&self) -> (r: bool)
        ensures
            r == (self.spec_reply_descriptor() matches Some(descriptor) && descriptor.forum_topic),
    {
        match self.reply_descriptor() {
            Some(descriptor) => descriptor.forum_topic,
            None => false,
        }
    }

    /// The forum topic that the message belongs to.
    ///
    /// Nothing if the message has no reply header or is not flagged as a
    /// forum-topic message. Otherwise the thread's top identifier where the
    /// header has one, and else the replied-to identifier, which names the
    /// topic for the first message of a topic. Nothing again if the header
    /// has neither: the topic is then unknown, and no number stands in.
    pub fn topic_id(&self) -> (r: Option<i32>)
        ensures
            r == self.spec_topic_id(),
    {
        match self.reply_descriptor() {
            Some(descriptor) => descriptor.topic_id(),
            None => None,
        }
    }

    /// Whether the message belongs to the topic `topic_id`.
    pub fn is_in_topic(&self, topic_id: i32) -> (r: bool)
        ensures
            r == (self.spec_topic_id() == Some(topic_id)),
    {
        match self.topic_id() {
            Some(id) => id == topic_id,
            None => false,
        }
    }

    /// Whether the message belongs to one of the topics `topic_ids`.
    pub fn is_in_topics(&self, topic_ids: &[i32]) -> (r: bool)
        ensures
            r == (self.spec_topic_id() matches Some(id) && topic_ids@.contains(id)),
            topic_ids@.len() == 0 ==> !r,
    {
        match self.topic_id() {
            Some(id) => contains_id(topic_ids, id),
            None => false,
        }
    }

    /// The request that marks this message and all before it as read: the
    /// channel request where the chat of the message is a channel of any
    /// kind, the general request where it is not; either way up to this
    /// message's identifier.
    pub open spec fn spec_read_history(self) -> ReadHistory {
        let chat = self.chat_map().spec_lookup(self.raw.peer_id).spec_pack();
        match chat.spec_try_to_input_channel() {
            Some(channel) => ReadHistory::Channel { channel, max_id: self.raw.id },
            None => ReadHistory::Messages { peer: chat.spec_to_input_peer(), max_id: self.raw.id },
        }
    }

    /// Makes the request that marks this message and all before it as read.
    pub fn read_history(&self) -> (r: ReadHistory)
        ensures
            r == self.spec_read_history(),
    {
        let chat = self.chat().pack();
        match chat.try_to_input_channel() {
            Some(channel) => ReadHistory::Channel { channel, max_id: self.raw.id },
            None => ReadHistory::Messages { peer: chat.to_input_peer(), max_id: self.raw.id },
        }
    }

    /// The text of the diagnostic dump: the inputs of topic resolution, one
    /// per line, and what they resolve to.
    pub open spec fn spec_debug_topic_info(self) -> Seq<char> {
        match self.raw.reply_to {
            Some(header) => {
                let descriptor = header.spec_descriptor();
                "Topic Debug Info:\n- Message ID: "@ + spec_decimal(self.raw.id as int)
                    + "\n- Chat is forum-enabled: "@ + spec_bool(
                    self.chat_map().spec_lookup(self.raw.peer_id).spec_is_forum(),
                ) + "\n- Reply header variant: "@ + header.spec_variant_name()
                    + "\n- forum_topic flag: "@ + spec_bool(descriptor.forum_topic)
                    + "\n- reply_to_top_id: "@ + spec_option(descriptor.reply_to_top_id)
                    + "\n- reply_to_msg_id: "@ + spec_option(descriptor.reply_to_msg_id)
                    + "\n- topic_id() returns: "@ + spec_option(descriptor.spec_topic_id())
            },
            None => "No reply header found"@,
        }
    }

    /// Describes how the message stands with regard to forum topics, for a
    /// person to read.
    pub fn debug_topic_info(&self) -> (r: String)
        ensures
            r@ == self.spec_debug_topic_info(),
    {
        match &self.raw.reply_to {
            Some(header) => {
                let descriptor = header.descriptor();
                let is_in_forum = self.chat().is_forum();
                let mut out = String::from_str("Topic Debug Info:\n- Message ID: ");
                push_decimal(&mut out, self.raw.id);
                out.append("\n- Chat is forum-enabled: ");
                push_bool(&mut out, is_in_forum);
                out.append("\n- Reply header variant: ");
                out.append(header.variant_name());
                out.append("\n- forum_topic flag: ");
                push_bool(&mut out, descriptor.forum_topic);
                out.append("\n- reply_to_top_id: ");
                push_option(&mut out, descriptor.reply_to_top_id);
                out.append("\n- reply_to_msg_id: ");
                push_option(&mut out, descriptor.reply_to_msg_id);
                out.append("\n- topic_id() returns: ");
                push_option(&mut out, descriptor.topic_id());
                out
            },
            None => String::from_str("No reply header found"),
        }
    }
}

} // verus!
