//! Decoded wire records, as the transport hands them over.
//!
//! A message arrives in one of three shapes: a full message, a trimmed
//! service message that carries an action in place of text, and the short
//! acknowledgement of a message that this client sent itself. The records
//! follow the protocol schema field for field; payloads that nothing here
//! reads keep their schema type.

use vstd::prelude::*;
use crate::types::peer::Peer;
use crate::types::topic::ReplyDescriptor;
use grammers_tl_types::enums::{
    FactCheck, MessageAction, MessageEntity, MessageFwdHeader, MessageMedia, MessagePeerReaction,
    MessageReactor, Reaction, ReplyMarkup, RestrictionReason,
};

verus! {

/// The current shape of a reply header.
#[derive(Clone, Debug, PartialEq)]
pub struct ReplyHeader {
    pub reply_to_scheduled: bool,
    pub forum_topic: bool,
    pub quote: bool,
    pub reply_to_msg_id: Option<i32>,
    pub reply_to_peer_id: Option<Peer>,
    pub reply_from: Option<MessageFwdHeader>,
    pub reply_media: Option<MessageMedia>,
    pub reply_to_top_id: Option<i32>,
    pub quote_text: Option<String>,
    pub quote_entities: Option<Vec<MessageEntity>>,
    pub quote_offset: Option<i32>,
}

/// The older shape of a reply header, from before quotes existed.
#[derive(Clone, Copy, Debug, PartialEq, Eq, Structural)]
pub struct LegacyReplyHeader {
    pub reply_to_scheduled: bool,
    pub forum_topic: bool,
    pub reply_to_msg_id: Option<i32>,
    pub reply_to_peer_id: Option<Peer>,
    pub reply_to_top_id: Option<i32>,
}

/// The header of a reply to a story.
#[derive(Clone, Copy, Debug, PartialEq, Eq, Structural)]
pub struct StoryReplyHeader {
    pub peer: Peer,
    pub story_id: i32,
}

/// What a message replies to.
#[derive(Clone, Debug, PartialEq)]
pub enum MessageReplyHeader {
    Header(ReplyHeader),
    MessageReplyHeader(LegacyReplyHeader),
    Story(StoryReplyHeader),
}

impl MessageReplyHeader {
    /// The three fields that topic resolution reads. Both header shapes
    /// carry them; a reply to a story carries none, which gives the empty
    /// descriptor.
    pub open spec fn spec_descriptor(self) -> ReplyDescriptor {
        match self {
            MessageReplyHeader::Header(h) => ReplyDescriptor {
                forum_topic: h.forum_topic,
                reply_to_top_id: h.reply_to_top_id,
                reply_to_msg_id: h.reply_to_msg_id,
            },
            MessageReplyHeader::MessageReplyHeader(h) => ReplyDescriptor {
                forum_topic: h.forum_topic,
                reply_to_top_id: h.reply_to_top_id,
                reply_to_msg_id: h.reply_to_msg_id,
            },
            MessageReplyHeader::Story(_) => ReplyDescriptor {
                forum_topic: false,
                reply_to_top_id: None,
                reply_to_msg_id: None,
            },
        }
    }

    /// Reads the reply descriptor off either header shape.
    pub fn descriptor(&self) -> (r: ReplyDescriptor)
        ensures
            r == self.spec_descriptor(),
    {
        match self {
            MessageReplyHeader::Header(h) => ReplyDescriptor {
                forum_topic: h.forum_topic,
                reply_to_top_id: h.reply_to_top_id,
                reply_to_msg_id: h.reply_to_msg_id,
            },
            MessageReplyHeader::MessageReplyHeader(h) => ReplyDescriptor {
                forum_topic: h.forum_topic,
                reply_to_top_id: h.reply_to_top_id,
                reply_to_msg_id: h.reply_to_msg_id,
            },
            MessageReplyHeader::Story(_) => ReplyDescriptor::empty(),
        }
    }

    /// The name under which the diagnostic dump lists the header's shape.
    pub open spec fn spec_variant_name(self) -> Seq<char> {
        match self {
            MessageReplyHeader::Header(_) => "Header"@,
            MessageReplyHeader::MessageReplyHeader(_) => "MessageReplyHeader"@,
            MessageReplyHeader::Story(_) => "Unknown"@,
        }
    }

    /// Names the header's shape for the diagnostic dump.
    pub fn variant_name(&self) -> (r: &'static str)
        ensures
            r@ == self.spec_variant_name(),
    {
        match self {
            MessageReplyHeader::Header(_) => "Header",
            MessageReplyHeader::MessageReplyHeader(_) => "MessageReplyHeader",
            MessageReplyHeader::Story(_) => "Unknown",
        }
    }

    /// The header that a locally sent reply to message `reply_to_msg_id`
    /// gets: nothing but the replied-to identifier is known, and the
    /// forum-topic flag is never set.
    pub open spec fn spec_local(reply_to_msg_id: i32) -> MessageReplyHeader {
        MessageReplyHeader::Header(
            ReplyHeader {
                reply_to_scheduled: false,
                forum_topic: false,
                quote: false,
                reply_to_msg_id: Some(reply_to_msg_id),
                reply_to_peer_id: None,
                reply_from: None,
                reply_media: None,
                reply_to_top_id: None,
                quote_text: None,
                quote_entities: None,
                quote_offset: None,
            },
        )
    }

    /// Builds the header of a locally sent reply.
    pub fn local(reply_to_msg_id: i32) -> (r: Self)
        ensures
            r == Self::spec_local(reply_to_msg_id),
            r.spec_descriptor() == (ReplyDescriptor {
                forum_topic: false,
                reply_to_top_id: None,
                reply_to_msg_id: Some(reply_to_msg_id),
            }),
    {
        MessageReplyHeader::Header(
            ReplyHeader {
                reply_to_scheduled: false,
                forum_topic: false,
                quote: false,
                reply_to_msg_id: Some(reply_to_msg_id),
                reply_to_peer_id: None,
                reply_from: None,
                reply_media: None,
                reply_to_top_id: None,
                quote_text: None,
                quote_entities: None,
                quote_offset: None,
            },
        )
    }
}

/// Reply statistics of a message.
#[derive(Clone, Debug, PartialEq)]
pub struct MessageReplies {
    pub comments: bool,
    pub replies: i32,
    pub replies_pts: i32,
    pub recent_repliers: Option<Vec<Peer>>,
    pub channel_id: Option<i64>,
    pub max_id: Option<i32>,
    pub read_max_id: Option<i32>,
}

/// How often one reaction was given.
#[derive(Clone, Debug, PartialEq)]
pub struct ReactionCount {
    pub chosen_order: Option<i32>,
    pub reaction: Reaction,
    pub count: i32,
}

/// The reactions that a message has received.
#[derive(Clone, Debug, PartialEq)]
pub struct MessageReactions {
    pub min: bool,
    pub can_see_list: bool,
    pub reactions_as_tags: bool,
    pub results: Vec<ReactionCount>,
    pub recent_reactions: Option<Vec<MessagePeerReaction>>,
    pub top_reactors: Option<Vec<MessageReactor>>,
}

/// The sum of the counts in `results`, as an unbounded integer.
pub open spec fn spec_total(results: Seq<ReactionCount>) -> int
    decreases results.len(),
{
    if results.len() == 0 {
        0
    } else {
        spec_total(results.drop_last()) + results.last().count
    }
}

/// The 32-bit number that `n` wraps around to: the one number between
/// `i32::MIN` and `i32::MAX` that differs from `n` by a multiple of 2^32.
pub open spec fn spec_wrap32(n: int) -> i32 {
    ((n + 0x8000_0000) % 0x1_0000_0000 - 0x8000_0000) as i32
}

/// A 32-bit number that differs from `n` by a multiple of 2^32 is what `n`
/// wraps around to.
pub proof fn lemma_wrap32_unique(n: int, y: int, k: int)
    requires
        i32::MIN <= y <= i32::MAX,
        y == n + k * 0x1_0000_0000,
    ensures
        spec_wrap32(n) == y,
{
    vstd::arithmetic::div_mod::lemma_fundamental_div_mod_converse(
        n + 0x8000_0000,
        0x1_0000_0000,
        -k,
        y + 0x8000_0000,
    );
}

/// Wrapping does nothing to a number that fits in 32 bits, and what a
/// number wraps around to differs from it by a multiple of 2^32.
pub proof fn lemma_wrap32(n: int)
    ensures
        i32::MIN <= n <= i32::MAX ==> spec_wrap32(n) == n,
        spec_wrap32(n) == n - ((n + 0x8000_0000) / 0x1_0000_0000) * 0x1_0000_0000,
{
    vstd::arithmetic::div_mod::lemma_fundamental_div_mod(n + 0x8000_0000, 0x1_0000_0000);
    if i32::MIN <= n <= i32::MAX {
        lemma_wrap32_unique(n, n, 0);
    }
}

/// Adding in 32 bits with wrap-around gives what the exact sum wraps
/// around to, whatever either number wrapped around from.
pub proof fn lemma_wrapping_add_wraps(n: int, count: i32)
    ensures
        spec_wrap32(n).wrapping_add(count) == spec_wrap32(n + count),
{
    lemma_wrap32(n);
    let q = (n + 0x8000_0000) / 0x1_0000_0000;
    let sum = spec_wrap32(n) + count;
    if sum > i32::MAX {
        lemma_wrap32_unique(n + count, sum - 0x1_0000_0000, -q - 1);
    } else if sum < i32::MIN {
        lemma_wrap32_unique(n + count, sum + 0x1_0000_0000, -q + 1);
    } else {
        lemma_wrap32_unique(n + count, sum, -q);
    }
}

impl MessageReactions {
    /// How many reactions there are in all: the sum of the counts, wrapped
    /// around to 32 bits.
    pub open spec fn spec_count(self) -> i32 {
        spec_wrap32(spec_total(self.results@))
    }

    /// Adds up how often each reaction was given, in 32 bits with
    /// wrap-around. Where the sum fits in 32 bits, it is the sum.
    pub fn total(&self) -> (r: i32)
        ensures
            r == self.spec_count(),
            i32::MIN <= spec_total(self.results@) <= i32::MAX ==> r == spec_total(self.results@),
    {
        let mut sum: i32 = 0;
        let mut i: usize = 0;
        proof {
            lemma_wrap32(0);
        }
        while i < self.results.len()
            invariant
                i <= self.results.len(),
                sum == spec_wrap32(spec_total(self.results@.take(i as int))),
            decreases self.results.len() - i,
        {
            proof {
                assert(self.results@.take(i + 1).drop_last() == self.results@.take(i as int));
                assert(self.results@.take(i + 1).last() == self.results@[i as int]);
                lemma_wrapping_add_wraps(
                    spec_total(self.results@.take(i as int)),
                    self.results@[i as int].count,
                );
            }
            sum = sum.wrapping_add(self.results[i].count);
            i += 1;
        }
        proof {
            assert(self.results@.take(i as int) == self.results@);
            lemma_wrap32(spec_total(self.results@));
        }
        sum
    }
}

/// A full message record. It is also the common superset that every other
/// shape is normalised into.
#[derive(Clone, Debug, PartialEq)]
pub struct Message {
    pub out: bool,
    pub mentioned: bool,
    pub media_unread: bool,
    pub silent: bool,
    pub post: bool,
    pub from_scheduled: bool,
    pub legacy: bool,
    pub edit_hide: bool,
    pub pinned: bool,
    pub noforwards: bool,
    pub invert_media: bool,
    pub offline: bool,
    pub video_processing_pending: bool,
    pub id: i32,
    pub from_id: Option<Peer>,
    pub from_boosts_applied: Option<i32>,
    pub peer_id: Peer,
    pub saved_peer_id: Option<Peer>,
    pub fwd_from: Option<MessageFwdHeader>,
    pub via_bot_id: Option<i64>,
    pub via_business_bot_id: Option<i64>,
    pub reply_to: Option<MessageReplyHeader>,
    pub date: i32,
    pub message: String,
    pub media: Option<MessageMedia>,
    pub reply_markup: Option<ReplyMarkup>,
    pub entities: Option<Vec<MessageEntity>>,
    pub views: Option<i32>,
    pub forwards: Option<i32>,
    pub replies: Option<MessageReplies>,
    pub edit_date: Option<i32>,
    pub post_author: Option<String>,
    pub grouped_id: Option<i64>,
    pub reactions: Option<MessageReactions>,
    pub restriction_reason: Option<Vec<RestrictionReason>>,
    pub ttl_period: Option<i32>,
    pub quick_reply_shortcut_id: Option<i32>,
    pub effect: Option<i64>,
    pub factcheck: Option<FactCheck>,
    pub report_delivery_until_date: Option<i32>,
}

impl Message {
    /// The record that has an identifier, a chat, a date and a text, and
    /// nothing else: every flag is off and every optional field is absent.
    pub open spec fn spec_bare(id: i32, peer_id: Peer, date: i32, message: String) -> Message {
        Message {
            out: false,
            mentioned: false,
            media_unread: false,
            silent: false,
            post: false,
            from_scheduled: false,
            legacy: false,
            edit_hide: false,
            pinned: false,
            noforwards: false,
            invert_media: false,
            offline: false,
            video_processing_pending: false,
            id,
            from_id: None,
            from_boosts_applied: None,
            peer_id,
            saved_peer_id: None,
            fwd_from: None,
            via_bot_id: None,
            via_business_bot_id: None,
            reply_to: None,
            date,
            message,
            media: None,
            reply_markup: None,
            entities: None,
            views: None,
            forwards: None,
            replies: None,
            edit_date: None,
            post_author: None,
            grouped_id: None,
            reactions: None,
            restriction_reason: None,
            ttl_period: None,
            quick_reply_shortcut_id: None,
            effect: None,
            factcheck: None,
            report_delivery_until_date: None,
        }
    }

    /// Makes the bare record.
    pub fn bare(id: i32, peer_id: Peer, date: i32, message: String) -> (r: Message)
        ensures
            r == Self::spec_bare(id, peer_id, date, message),
    {
        Message {
            out: false,
            mentioned: false,
            media_unread: false,
            silent: false,
            post: false,
            from_scheduled: false,
            legacy: false,
            edit_hide: false,
            pinned: false,
            noforwards: false,
            invert_media: false,
            offline: false,
            video_processing_pending: false,
            id,
            from_id: None,
            from_boosts_applied: None,
            peer_id,
            saved_peer_id: None,
            fwd_from: None,
            via_bot_id: None,
            via_business_bot_id: None,
            reply_to: None,
            date,
            message,
            media: None,
            reply_markup: None,
            entities: None,
            views: None,
            forwards: None,
            replies: None,
            edit_date: None,
            post_author: None,
            grouped_id: None,
            reactions: None,
            restriction_reason: None,
            ttl_period: None,
            quick_reply_shortcut_id: None,
            effect: None,
            factcheck: None,
            report_delivery_until_date: None,
        }
    }
}

/// A service message record: a trimmed message with an action.
#[derive(Clone, Debug, PartialEq)]
pub struct MessageService {
    pub out: bool,
    pub mentioned: bool,
    pub media_unread: bool,
    pub silent: bool,
    pub post: bool,
    pub legacy: bool,
    pub id: i32,
    pub from_id: Option<Peer>,
    pub peer_id: Peer,
    pub reply_to: Option<MessageReplyHeader>,
    pub date: i32,
    pub action: MessageAction,
    pub ttl_period: Option<i32>,
}

/// The placeholder left where a message was deleted or never existed.
#[derive(Clone, Copy, Debug, PartialEq, Eq, Structural)]
pub struct MessageEmpty {
    pub id: i32,
    pub peer_id: Option<Peer>,
}

/// A message record as it comes off the wire.
#[derive(Clone, Debug, PartialEq)]
pub enum Record {
    Empty(MessageEmpty),
    Message(Message),
    Service(MessageService),
}

/// The server's short acknowledgement of a message that this client sent.
#[derive(Clone, Debug, PartialEq)]
pub struct UpdateShortSentMessage {
    pub out: bool,
    pub id: i32,
    pub pts: i32,
    pub pts_count: i32,
    pub date: i32,
    pub media: Option<MessageMedia>,
    pub entities: Option<Vec<MessageEntity>>,
    pub ttl_period: Option<i32>,
}

/// What the client knows of a message it sends, as far as the snapshot of
/// the sent message is made from it.
#[derive(Clone, Debug, PartialEq)]
pub struct InputMessage {
    pub text: String,
    pub silent: bool,
    pub invert_media: bool,
    pub reply_to: Option<i32>,
    pub reply_markup: Option<ReplyMarkup>,
}

} // verus!
