//! The downstream publishers' decision rules: given the last event a
//! consumer observed and the event just received, which configured message,
//! if any, does it announce, and to which audience.
//!
//! Consumers run as independent tasks and must tolerate missed events; the
//! rules here are total, so a consumer never fails on a sequence that lag
//! made possible. The "last observed event" bookkeeping is local to each
//! consumer and is not part of the engine's contract.

use vstd::prelude::*;

use crate::presence::APIEvent;

verus! {

/// Which of the configured announcement texts a consumer sends.
#[derive(Clone, Copy, Debug, PartialEq, Eq, Structural)]
pub enum MessageKind {
    /// The space is open to the public.
    GeneralOpen,
    /// The space has closed after being open to the public.
    GeneralClose,
    /// The space is open to members only.
    MemberOpen,
    /// The space has closed after being open to members only.
    MemberClose,
}

/// Where an announcement goes: the public channel or the members' one.
#[derive(Clone, Copy, Debug, PartialEq, Eq, Structural)]
pub enum Audience {
    Public,
    Members,
}

/// The member-only messages go to the members' channel; the general ones
/// are public.
pub open spec fn spec_audience_of(kind: MessageKind) -> Audience {
    match kind {
        MessageKind::GeneralOpen => Audience::Public,
        MessageKind::GeneralClose => Audience::Public,
        MessageKind::MemberOpen => Audience::Members,
        MessageKind::MemberClose => Audience::Members,
    }
}

/// The audience of a message kind; see [`spec_audience_of`].
pub fn audience_of(kind: MessageKind) -> (audience: Audience)
    ensures
        audience == spec_audience_of(kind),
{
    match kind {
        MessageKind::GeneralOpen => Audience::Public,
        MessageKind::GeneralClose => Audience::Public,
        MessageKind::MemberOpen => Audience::Members,
        MessageKind::MemberClose => Audience::Members,
    }
}

/// The chat notifier's rule. A close is phrased by what it follows: after a
/// public open (or with no history) it is the general close, after a
/// members-only open the members' close. Opening always announces the kind
/// of open. A repeated close, possible only when events were missed,
/// announces nothing.
pub open spec fn spec_chat_message(last: Option<APIEvent>, event: APIEvent) -> Option<
    MessageKind,
> {
    match (last, event) {
        (None, APIEvent::Close) => Some(MessageKind::GeneralClose),
        (Some(APIEvent::Open), APIEvent::Close) => Some(MessageKind::GeneralClose),
        (Some(APIEvent::OpenIntern), APIEvent::Close) => Some(MessageKind::MemberClose),
        (Some(APIEvent::Close), APIEvent::Close) => None,
        (_, APIEvent::OpenIntern) => Some(MessageKind::MemberOpen),
        (_, APIEvent::Open) => Some(MessageKind::GeneralOpen),
    }
}

/// The chat notifier's decision; see [`spec_chat_message`].
pub fn chat_message(last: Option<APIEvent>, event: APIEvent) -> (message: Option<MessageKind>)
    ensures
        message == spec_chat_message(last, event),
{
    match (last, event) {
        (None, APIEvent::Close) => Some(MessageKind::GeneralClose),
        (Some(APIEvent::Open), APIEvent::Close) => Some(MessageKind::GeneralClose),
        (Some(APIEvent::OpenIntern), APIEvent::Close) => Some(MessageKind::MemberClose),
        (Some(APIEvent::Close), APIEvent::Close) => None,
        (_, APIEvent::OpenIntern) => Some(MessageKind::MemberOpen),
        (_, APIEvent::Open) => Some(MessageKind::GeneralOpen),
    }
}

/// The social-feed poster's rule: it posts only the public milestones. A
/// public open is always announced; a close is announced only when it does
/// not follow a members-only open; everything else stays off the feed.
pub open spec fn spec_feed_message(last: Option<APIEvent>, event: APIEvent) -> Option<
    MessageKind,
> {
    match (last, event) {
        (None, APIEvent::Close) => Some(MessageKind::GeneralClose),
        (Some(APIEvent::Open), APIEvent::Close) => Some(MessageKind::GeneralClose),
        (_, APIEvent::Open) => Some(MessageKind::GeneralOpen),
        _ => None,
    }
}

/// The social-feed poster's decision; see [`spec_feed_message`].
pub fn feed_message(last: Option<APIEvent>, event: APIEvent) -> (message: Option<MessageKind>)
    ensures
        message == spec_feed_message(last, event),
{
    match (last, event) {
        (None, APIEvent::Close) => Some(MessageKind::GeneralClose),
        (Some(APIEvent::Open), APIEvent::Close) => Some(MessageKind::GeneralClose),
        (_, APIEvent::Open) => Some(MessageKind::GeneralOpen),
        _ => None,
    }
}

/// Whatever a consumer announces is consistent with the event received: an
/// open event announces an open message or nothing, a close event a close
/// message or nothing; the feed only ever posts publicly.
pub proof fn lemma_messages_match_event(last: Option<APIEvent>, event: APIEvent)
    ensures
        event == APIEvent::Close ==> (spec_chat_message(last, event) matches Some(m) ==> (
        m == MessageKind::GeneralClose || m == MessageKind::MemberClose)),
        event != APIEvent::Close ==> (spec_chat_message(last, event) matches Some(m) ==> (
        m == MessageKind::GeneralOpen || m == MessageKind::MemberOpen)),
        spec_feed_message(last, event) matches Some(m) ==> spec_audience_of(m)
            == Audience::Public,
{
}

} // verus!
