use studio_companion::speech::{can_speak, SpeechSession};

#[test]
fn fresh_session_is_idle_and_silent() {
    let s = SpeechSession::new();
    assert!(!s.is_currently_listening());
    assert!(!s.is_currently_speaking());
    assert_eq!(s.get_current_transcription(), None);
}

#[test]
fn listening_needs_permission() {
    let mut s = SpeechSession::new();
    assert!(!s.start_listening(false, true));
    assert!(!s.is_currently_listening());
}

#[test]
fn listening_needs_provider_consent() {
    let mut s = SpeechSession::new();
    assert!(!s.start_listening(true, false));
    assert!(!s.is_currently_listening());
}

#[test]
fn listening_starts_with_both() {
    let mut s = SpeechSession::new();
    assert!(s.start_listening(true, true));
    assert!(s.is_currently_listening());
}

#[test]
fn stop_is_idempotent() {
    let mut s = SpeechSession::new();
    s.start_listening(true, true);
    s.stop_listening();
    assert!(!s.is_currently_listening());
    s.stop_listening();
    assert!(!s.is_currently_listening());
}

#[test]
fn transcript_survives_stop() {
    let mut s = SpeechSession::new();
    s.start_listening(true, true);
    s.record_transcription(String::from("insert a part here"));
    s.stop_listening();
    assert_eq!(
        s.get_current_transcription(),
        Some(String::from("insert a part here"))
    );
}

#[test]
fn silent_session_yields_no_transcript() {
    let mut s = SpeechSession::new();
    s.start_listening(true, true);
    s.stop_listening();
    assert_eq!(s.get_current_transcription(), None);
}

#[test]
fn new_session_clears_old_transcript() {
    let mut s = SpeechSession::new();
    s.start_listening(true, true);
    s.record_transcription(String::from("first session"));
    s.stop_listening();
    s.start_listening(true, true);
    assert_eq!(s.get_current_transcription(), None);
}

#[test]
fn empty_transcript_counts_as_absent() {
    let mut s = SpeechSession::new();
    s.record_transcription(String::new());
    assert_eq!(s.get_current_transcription(), None);
}

#[test]
fn speak_rejects_empty_text() {
    let mut s = SpeechSession::new();
    assert!(!can_speak(""));
    assert!(!s.speak("", false));
    assert!(!s.is_currently_speaking());
}

#[test]
fn speak_rejects_embedded_nul() {
    let mut s = SpeechSession::new();
    let text = "hello\0world";
    assert!(!can_speak(text));
    assert!(!s.speak(text, false));
    assert!(!s.is_currently_speaking());
}

#[test]
fn speak_succeeds_on_valid_text() {
    let mut s = SpeechSession::new();
    assert!(can_speak("part inserted"));
    assert!(s.speak("part inserted", true));
    assert!(s.is_currently_speaking());
}

#[test]
fn speak_fails_when_provider_refuses() {
    let mut s = SpeechSession::new();
    assert!(!s.speak("part inserted", false));
    assert!(!s.is_currently_speaking());
}

#[test]
fn stop_tts_silences() {
    let mut s = SpeechSession::new();
    s.speak("part inserted", true);
    s.stop_tts();
    assert!(!s.is_currently_speaking());
}

#[test]
fn speaking_and_listening_are_independent() {
    let mut s = SpeechSession::new();
    s.start_listening(true, true);
    s.speak("done", true);
    assert!(s.is_currently_listening());
    assert!(s.is_currently_speaking());
    s.stop_tts();
    assert!(s.is_currently_listening());
    s.stop_listening();
    assert!(!s.is_currently_listening());
}
