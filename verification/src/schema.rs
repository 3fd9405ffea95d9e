//! Payloads of the protocol schema that a snapshot carries through unread,
//! declared so that they can stand in fields and signatures.
//!
//! Nothing in this crate looks inside one of these values. The contracts
//! below are believed, not proved: each says what the named outside function
//! does, as its source shows it.

use vstd::prelude::*;

verus! {

/// `grammers_tl_types::enums::MessageMedia`: the media attached to a message.
#[verifier::external_type_specification]
#[verifier::external_body]
pub struct ExMessageMedia(grammers_tl_types::enums::MessageMedia);

/// `grammers_tl_types::enums::MessageAction`: what a service message reports.
#[verifier::external_type_specification]
#[verifier::external_body]
pub struct ExMessageAction(grammers_tl_types::enums::MessageAction);

/// `grammers_tl_types::enums::ReplyMarkup`: the keyboard a bot attached.
#[verifier::external_type_specification]
#[verifier::external_body]
pub struct ExReplyMarkup(grammers_tl_types::enums::ReplyMarkup);

/// `grammers_tl_types::enums::MessageEntity`: one formatting entity.
#[verifier::external_type_specification]
#[verifier::external_body]
pub struct ExMessageEntity(grammers_tl_types::enums::MessageEntity);

/// `grammers_tl_types::enums::MessageFwdHeader`: where a forward came from.
#[verifier::external_type_specification]
#[verifier::external_body]
pub struct ExMessageFwdHeader(grammers_tl_types::enums::MessageFwdHeader);

/// `grammers_tl_types::enums::RestrictionReason`: why a message is restricted.
#[verifier::external_type_specification]
#[verifier::external_body]
pub struct ExRestrictionReason(grammers_tl_types::enums::RestrictionReason);

/// `grammers_tl_types::enums::FactCheck`: a fact-check note.
#[verifier::external_type_specification]
#[verifier::external_body]
pub struct ExFactCheck(grammers_tl_types::enums::FactCheck);

/// `grammers_tl_types::enums::Reaction`: the emoji of a reaction.
#[verifier::external_type_specification]
#[verifier::external_body]
pub struct ExReaction(grammers_tl_types::enums::Reaction);

/// `grammers_tl_types::enums::MessagePeerReaction`: who reacted recently.
#[verifier::external_type_specification]
#[verifier::external_body]
pub struct ExMessagePeerReaction(grammers_tl_types::enums::MessagePeerReaction);

/// `grammers_tl_types::enums::MessageReactor`: a top paid reactor.
#[verifier::external_type_specification]
#[verifier::external_body]
pub struct ExMessageReactor(grammers_tl_types::enums::MessageReactor);

/// `chrono::NaiveDateTime`: a calendar date and time of day, here always
/// read as UTC.
#[verifier::external_type_specification]
#[verifier::external_body]
pub struct ExNaiveDateTime(chrono::NaiveDateTime);

/// The calendar date and time, in UTC, that lies `secs` seconds after the
/// start of 1970, as `chrono` computes it; nothing where `chrono` cannot
/// represent that instant.
pub uninterp spec fn utc_datetime(secs: int) -> Option<chrono::NaiveDateTime>;

/// `chrono::DateTime::<Utc>::from_timestamp` with no nanoseconds, followed
/// by `DateTime::naive_utc`, which drops the (empty) offset. The result
/// depends on the number of seconds alone.
#[verifier::external_body]
pub(crate) fn utc_from_timestamp(secs: i32) -> (r: Option<chrono::NaiveDateTime>)
    ensures
        r == utc_datetime(secs as int),
{
    match chrono::DateTime::from_timestamp(i64::from(secs), 0) {
        Some(date) => Some(date.naive_utc()),
        None => None,
    }
}

/// `Clone::clone` of `grammers_tl_types::enums::MessageMedia`, which the
/// schema crate derives: the copy equals the value it was made of.
pub assume_specification[ <grammers_tl_types::enums::MessageMedia as Clone>::clone ](
    media: &grammers_tl_types::enums::MessageMedia,
) -> (r: grammers_tl_types::enums::MessageMedia)
    ensures
        r == *media,
;

/// `Clone::clone` of `grammers_tl_types::enums::ReplyMarkup`, which the
/// schema crate derives: the copy equals the value it was made of.
pub assume_specification[ <grammers_tl_types::enums::ReplyMarkup as Clone>::clone ](
    markup: &grammers_tl_types::enums::ReplyMarkup,
) -> (r: grammers_tl_types::enums::ReplyMarkup)
    ensures
        r == *markup,
;

/// `Clone::clone` of `grammers_tl_types::enums::MessageFwdHeader`, which the
/// schema crate derives: the copy equals the value it was made of.
pub assume_specification[ <grammers_tl_types::enums::MessageFwdHeader as Clone>::clone ](
    header: &grammers_tl_types::enums::MessageFwdHeader,
) -> (r: grammers_tl_types::enums::MessageFwdHeader)
    ensures
        r == *header,
;

/// `Clone::clone` of `grammers_tl_types::enums::MessageAction`, which the
/// schema crate derives: the copy equals the value it was made of.
pub assume_specification[ <grammers_tl_types::enums::MessageAction as Clone>::clone ](
    action: &grammers_tl_types::enums::MessageAction,
) -> (r: grammers_tl_types::enums::MessageAction)
    ensures
        r == *action,
;

/// `Clone::clone` of `grammers_tl_types::enums::Reaction`, which the schema
/// crate derives: the copy equals the value it was made of.
pub assume_specification[ <grammers_tl_types::enums::Reaction as Clone>::clone ](
    reaction: &grammers_tl_types::enums::Reaction,
) -> (r: grammers_tl_types::enums::Reaction)
    ensures
        r == *reaction,
;

} // verus!
