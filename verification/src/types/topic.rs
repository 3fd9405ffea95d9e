//! Forum-topic resolution.
//!
//! A reply header carries three fields that together say which forum topic a
//! message belongs to. Their meaning is overloaded: `reply_to_top_id` names
//! the topic for a reply inside an existing thread, while the first message
//! of a topic only carries `reply_to_msg_id`, which then stands in for the
//! topic identifier.

use vstd::prelude::*;

verus! {

/// The three reply-header fields that topic resolution reads.
#[derive(Clone, Copy, Debug, PartialEq, Eq, Structural)]
pub struct ReplyDescriptor {
    pub forum_topic: bool,
    pub reply_to_top_id: Option<i32>,
    pub reply_to_msg_id: Option<i32>,
}

impl ReplyDescriptor {
    /// The topic that a message with this descriptor belongs to, if any.
    ///
    /// Nothing when the message is not flagged as a forum-topic message;
    /// otherwise the thread's top identifier where it is present, and the
    /// replied-to message identifier where it is not.
    pub open spec fn spec_topic_id(self) -> Option<i32> {
        if !self.forum_topic {
            None
        } else if self.reply_to_top_id is Some {
            self.reply_to_top_id
        } else {
            self.reply_to_msg_id
        }
    }

    /// Whether `ids` lists the topic of this descriptor.
    pub open spec fn spec_is_in_topics(self, ids: Seq<i32>) -> bool {
        self.spec_topic_id() matches Some(t) && ids.contains(t)
    }

    /// The descriptor of a header that carries none of the three fields.
    pub fn empty() -> (r: Self)
        ensures
            r == (ReplyDescriptor { forum_topic: false, reply_to_top_id: None, reply_to_msg_id: None }),
    {
        ReplyDescriptor { forum_topic: false, reply_to_top_id: None, reply_to_msg_id: None }
    }

    /// Resolves the forum topic of a message from its reply descriptor.
    #[verifier::when_used_as_spec(spec_topic_id)]
    pub fn topic_id(self) -> (r: Option<i32>)
        ensures
            r == self.spec_topic_id(),
            !self.forum_topic ==> r is None,
            self.forum_topic && self.reply_to_top_id is Some ==> r == self.reply_to_top_id,
            self.forum_topic && self.reply_to_top_id is None ==> r == self.reply_to_msg_id,
    {
        if self.forum_topic {
            match self.reply_to_top_id {
                Some(top_id) => Some(top_id),
                None => self.reply_to_msg_id,
            }
        } else {
            None
        }
    }

    /// Whether the message belongs to the topic `topic_id`.
    pub fn is_in_topic(self, topic_id: i32) -> (r: bool)
        ensures
            r == (self.spec_topic_id() == Some(topic_id)),
    {
        match self.topic_id() {
            Some(id) => id == topic_id,
            None => false,
        }
    }

    /// Whether the message belongs to one of the topics in `topic_ids`.
    pub fn is_in_topics(self, topic_ids: &[i32]) -> (r: bool)
        ensures
            r == self.spec_is_in_topics(topic_ids@),
            topic_ids@.len() == 0 ==> !r,
    {
        match self.topic_id() {
            Some(id) => contains_id(topic_ids, id),
            None => false,
        }
    }
}

/// How a descriptor resolves, case by case. Without the forum-topic flag
/// there is no topic, whatever identifiers are present. With the flag, the
/// top identifier is the topic where it is present, the replied-to
/// identifier is the topic where only that is present, and the topic is
/// unknown where neither is.
pub proof fn law_topic_resolution(descriptor: ReplyDescriptor)
    ensures
        !descriptor.forum_topic ==> descriptor.spec_topic_id() is None,
        descriptor.forum_topic && descriptor.reply_to_top_id is Some
            ==> descriptor.spec_topic_id() == descriptor.reply_to_top_id,
        descriptor.forum_topic && descriptor.reply_to_top_id is None
            && descriptor.reply_to_msg_id is Some ==> descriptor.spec_topic_id()
            == descriptor.reply_to_msg_id,
        descriptor.forum_topic && descriptor.reply_to_top_id is None
            && descriptor.reply_to_msg_id is None ==> descriptor.spec_topic_id() is None,
{
}

/// Being in one of several topics is being in a topic that is one of them:
/// the resolved topic is looked for in the list, and a message without a
/// topic is in none. In particular nothing is in any of no topics.
pub proof fn law_is_in_topics_is_membership(descriptor: ReplyDescriptor, ids: Seq<i32>)
    ensures
        descriptor.spec_is_in_topics(ids) == match descriptor.spec_topic_id() {
            Some(topic_id) => ids.contains(topic_id),
            None => false,
        },
        ids.len() == 0 ==> !descriptor.spec_is_in_topics(ids),
        forall|topic_id: i32|
            descriptor.spec_topic_id() == Some(topic_id) ==> descriptor.spec_is_in_topics(
                seq![topic_id],
            ),
{
    assert forall|topic_id: i32| descriptor.spec_topic_id() == Some(topic_id) implies descriptor.spec_is_in_topics(
        seq![topic_id],
    ) by {
        assert(seq![topic_id][0] == topic_id);
    }
}

/// Linear search for `id` in `ids`.
pub fn contains_id(ids: &[i32], id: i32) -> (r: bool)
    ensures
        r == ids@.contains(id),
{
    let mut i: usize = 0;
    while i < ids.len()
        invariant
            i <= ids.len(),
            forall|j: int| 0 <= j < i ==> ids@[j] != id,
        decreases ids.len() - i,
    {
        if ids[i] == id {
            return true;
        }
        i += 1;
    }
    false
}

} // verus!
