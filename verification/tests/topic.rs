use grammers_client::types::topic::contains_id;
use grammers_client::types::ReplyDescriptor;

fn descriptor(forum_topic: bool, top: Option<i32>, msg: Option<i32>) -> ReplyDescriptor {
    ReplyDescriptor { forum_topic, reply_to_top_id: top, reply_to_msg_id: msg }
}

#[test]
fn topic_id_prefers_top_id() {
    assert_eq!(descriptor(true, Some(42), Some(7)).topic_id(), Some(42));
}

#[test]
fn topic_id_falls_back_to_msg_id() {
    assert_eq!(descriptor(true, None, Some(7)).topic_id(), Some(7));
}

#[test]
fn topic_id_needs_forum_flag() {
    assert_eq!(descriptor(false, Some(42), Some(7)).topic_id(), None);
    assert_eq!(descriptor(false, None, Some(7)).topic_id(), None);
    assert_eq!(descriptor(false, Some(42), None).topic_id(), None);
    assert_eq!(descriptor(false, None, None).topic_id(), None);
}

#[test]
fn topic_id_top_id_alone() {
    assert_eq!(descriptor(true, Some(42), None).topic_id(), Some(42));
}

#[test]
fn topic_id_unknown_when_flagged_without_ids() {
    assert_eq!(descriptor(true, None, None).topic_id(), None);
}

#[test]
fn topic_id_zero_is_a_topic_not_a_sentinel() {
    assert_eq!(descriptor(true, Some(0), Some(7)).topic_id(), Some(0));
    assert_eq!(descriptor(true, None, Some(0)).topic_id(), Some(0));
    assert!(descriptor(true, None, Some(0)).is_in_topic(0));
    assert!(!descriptor(true, None, None).is_in_topic(0));
}

#[test]
fn empty_descriptor_has_no_topic() {
    let empty = ReplyDescriptor::empty();
    assert_eq!(empty, descriptor(false, None, None));
    assert_eq!(empty.topic_id(), None);
}

#[test]
fn is_in_topic_compares_with_the_resolved_topic() {
    let d = descriptor(true, Some(42), Some(7));
    assert!(d.is_in_topic(42));
    assert!(!d.is_in_topic(7));
    assert!(!descriptor(false, Some(42), Some(7)).is_in_topic(42));
}

#[test]
fn is_in_topics_is_membership_of_the_resolved_topic() {
    let cases = [
        descriptor(true, Some(42), Some(7)),
        descriptor(true, None, Some(7)),
        descriptor(true, None, None),
        descriptor(false, Some(42), Some(7)),
    ];
    let lists: [&[i32]; 5] = [&[], &[42], &[7], &[1, 7, 42], &[3, 4]];
    for d in cases {
        for ids in lists {
            let expected = d.topic_id().map_or(false, |t| ids.contains(&t));
            assert_eq!(d.is_in_topics(ids), expected);
        }
    }
}

#[test]
fn is_in_topics_of_nothing_is_false() {
    assert!(!descriptor(true, Some(42), Some(7)).is_in_topics(&[]));
    assert!(!descriptor(false, None, None).is_in_topics(&[]));
}

#[test]
fn contains_id_searches_the_whole_list() {
    assert!(contains_id(&[5, 6, 7], 5));
    assert!(contains_id(&[5, 6, 7], 7));
    assert!(!contains_id(&[5, 6, 7], 8));
    assert!(!contains_id(&[], 8));
    assert!(contains_id(&[i32::MIN, i32::MAX], i32::MIN));
}
