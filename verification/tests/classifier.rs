use recruitment::kind::{
    classify, classify_emoji, is_owning_message, ParticipationKind, Reaction, ReactionEvent,
};

fn event(actor: Option<u64>, reaction: Reaction) -> ReactionEvent {
    ReactionEvent { actor, reaction, channel: 1, message: 2, guild: None }
}

#[test]
fn the_raised_hand_is_the_notifying_kind() {
    assert_eq!(classify_emoji("✋"), Some(ParticipationKind::Notifying));
    assert_eq!(ParticipationKind::Notifying.emoji(), "✋");
    assert!(ParticipationKind::Notifying.is_notifying());
}

#[test]
fn the_raised_back_of_the_hand_is_the_silent_kind() {
    assert_eq!(classify_emoji("🤚"), Some(ParticipationKind::Silent));
    assert_eq!(ParticipationKind::Silent.emoji(), "🤚");
    assert!(!ParticipationKind::Silent.is_notifying());
}

#[test]
fn any_other_emoji_is_no_kind() {
    assert_eq!(classify_emoji("👍"), None);
    assert_eq!(classify_emoji(""), None);
    assert_eq!(classify_emoji("✋✋"), None);
    assert_eq!(classify_emoji("✋ "), None);
    assert_eq!(classify_emoji("✋🏽"), None);
}

#[test]
fn classify_takes_the_kind_of_the_reaction() {
    let e = event(Some(5), Reaction::Unicode("🤚".to_string()));
    assert_eq!(classify(&e, 9), Some(ParticipationKind::Silent));
    let anonymous = event(None, Reaction::Unicode("✋".to_string()));
    assert_eq!(classify(&anonymous, 9), Some(ParticipationKind::Notifying));
}

#[test]
fn classify_rejects_the_systems_own_actor() {
    let e = event(Some(9), Reaction::Unicode("✋".to_string()));
    assert_eq!(classify(&e, 9), None);
}

#[test]
fn classify_rejects_custom_emoji() {
    let e = event(Some(5), Reaction::Custom(1234));
    assert_eq!(classify(&e, 9), None);
}

#[test]
fn an_owning_message_is_written_by_the_system_and_holds_a_marker() {
    assert!(is_owning_message(9, 9, "words ```toml\nx = 1\n```"));
    assert!(is_owning_message(9, 9, "```toml"));
    assert!(!is_owning_message(8, 9, "words ```toml\nx = 1\n```"));
    assert!(!is_owning_message(9, 9, "words ``` toml"));
    assert!(!is_owning_message(9, 9, ""));
}
