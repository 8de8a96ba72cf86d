use voice_assistant::assistant::{playback_finished, DiscordAssistant, Playback};

fn backend() -> DiscordAssistant {
    DiscordAssistant::new("model".to_string(), "Be brief.".to_string())
}

#[test]
fn new_backend_is_free_and_idle() {
    let assistant = backend();
    assert_eq!(assistant.get_attention_id(), None);
    assert!(!assistant.is_responding(true));
    assert!(assistant.messages().is_empty());
    assert!(assistant.functions().is_empty());
    assert_eq!(assistant.model(), "model");
}

#[test]
fn free_attention_goes_to_the_first_caller() {
    let mut assistant = backend();
    assert!(assistant.try_grab_attention(7));
    assert_eq!(assistant.get_attention_id(), Some(7));
}

#[test]
fn held_attention_is_refused_to_others() {
    let mut assistant = backend();
    assert!(assistant.try_grab_attention(7));
    assert!(!assistant.try_grab_attention(8));
    assert_eq!(assistant.get_attention_id(), Some(7));
}

#[test]
fn holder_may_grab_again() {
    let mut assistant = backend();
    assert!(assistant.try_grab_attention(7));
    assert!(assistant.try_grab_attention(7));
    assert_eq!(assistant.get_attention_id(), Some(7));
}

#[test]
fn only_the_holder_releases() {
    let mut assistant = backend();
    assert!(assistant.try_grab_attention(7));
    assistant.try_clear_attention(8);
    assert_eq!(assistant.get_attention_id(), Some(7));
    assistant.try_clear_attention(7);
    assert_eq!(assistant.get_attention_id(), None);
}

#[test]
fn release_of_free_attention_is_a_no_op() {
    let mut assistant = backend();
    assistant.try_clear_attention(1);
    assert_eq!(assistant.get_attention_id(), None);
}

#[test]
fn released_attention_can_be_taken_by_another() {
    let mut assistant = backend();
    assert!(assistant.try_grab_attention(7));
    assistant.try_clear_attention(7);
    assert!(assistant.try_grab_attention(8));
    assert_eq!(assistant.get_attention_id(), Some(8));
}

#[test]
fn responding_lasts_until_composed_and_played() {
    let mut assistant = backend();
    assert!(!assistant.is_responding(true));
    assert!(assistant.is_responding(false));
    assistant.set_responding();
    assert!(assistant.is_responding(true));
    assert!(assistant.is_responding(false));
    assistant.finish_message();
    assert!(assistant.is_responding(false));
    assert!(!assistant.is_responding(true));
}

#[test]
fn playback_is_finished_at_the_end_or_without_a_track() {
    assert!(playback_finished(Playback::Idle));
    assert!(playback_finished(Playback::Unknown));
    assert!(playback_finished(Playback::End));
    assert!(!playback_finished(Playback::Play));
    assert!(!playback_finished(Playback::Pause));
    assert!(!playback_finished(Playback::Stop));
    assert!(!playback_finished(Playback::Errored));
}
