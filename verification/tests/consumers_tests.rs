use fnord_status::consumers::{audience_of, chat_message, feed_message, Audience, MessageKind};
use fnord_status::presence::APIEvent;

#[test]
fn general_messages_are_public_and_member_messages_are_private() {
    assert_eq!(audience_of(MessageKind::GeneralOpen), Audience::Public);
    assert_eq!(audience_of(MessageKind::GeneralClose), Audience::Public);
    assert_eq!(audience_of(MessageKind::MemberOpen), Audience::Members);
    assert_eq!(audience_of(MessageKind::MemberClose), Audience::Members);
}

#[test]
fn chat_announces_every_open_by_kind() {
    for last in [
        None,
        Some(APIEvent::Open),
        Some(APIEvent::OpenIntern),
        Some(APIEvent::Close),
    ] {
        assert_eq!(chat_message(last, APIEvent::Open), Some(MessageKind::GeneralOpen));
        assert_eq!(chat_message(last, APIEvent::OpenIntern), Some(MessageKind::MemberOpen));
    }
}

#[test]
fn chat_phrases_a_close_by_what_it_follows() {
    assert_eq!(chat_message(None, APIEvent::Close), Some(MessageKind::GeneralClose));
    assert_eq!(
        chat_message(Some(APIEvent::Open), APIEvent::Close),
        Some(MessageKind::GeneralClose)
    );
    assert_eq!(
        chat_message(Some(APIEvent::OpenIntern), APIEvent::Close),
        Some(MessageKind::MemberClose)
    );
}

#[test]
fn chat_says_nothing_on_a_repeated_close() {
    // Possible only when the subscriber missed events in between.
    assert_eq!(chat_message(Some(APIEvent::Close), APIEvent::Close), None);
}

#[test]
fn feed_posts_only_public_milestones() {
    for last in [
        None,
        Some(APIEvent::Open),
        Some(APIEvent::OpenIntern),
        Some(APIEvent::Close),
    ] {
        assert_eq!(feed_message(last, APIEvent::Open), Some(MessageKind::GeneralOpen));
        assert_eq!(feed_message(last, APIEvent::OpenIntern), None);
    }
    assert_eq!(feed_message(None, APIEvent::Close), Some(MessageKind::GeneralClose));
    assert_eq!(
        feed_message(Some(APIEvent::Open), APIEvent::Close),
        Some(MessageKind::GeneralClose)
    );
    assert_eq!(feed_message(Some(APIEvent::OpenIntern), APIEvent::Close), None);
    assert_eq!(feed_message(Some(APIEvent::Close), APIEvent::Close), None);
}
