use studio_companion::permission::{Capability, PermissionGate, PermissionState};
use studio_companion::server::{
    capture_gate, health_response, permission_response, silence_response, speak_response,
    speech_status_response, start_listen_response, stop_listen_response, transcription_response,
    StatusSnapshot,
};

fn snapshot(capture: bool, speech: bool, listening: bool, speaking: bool) -> StatusSnapshot {
    StatusSnapshot {
        capture_permission: capture,
        speech_permission: speech,
        listening,
        speaking,
    }
}

#[test]
fn health_reports_ok_version_and_permissions() {
    let r = health_response(&snapshot(true, false, false, false), "1.4.2");
    assert_eq!(r.status, "ok");
    assert_eq!(r.version, "1.4.2");
    assert!(r.has_capture_permission);
    assert!(!r.has_speech_permission);
}

#[test]
fn health_agrees_with_dedicated_probes() {
    for &capture in &[false, true] {
        for &speech in &[false, true] {
            let snap = snapshot(capture, speech, false, false);
            let h = health_response(&snap, "1.0.0");
            let (p, _) = permission_response(&snap);
            let s = speech_status_response(&snap);
            assert_eq!(h.has_capture_permission, p.granted);
            assert_eq!(h.has_speech_permission, s.has_permission);
        }
    }
}

#[test]
fn permission_probe_when_granted() {
    let (r, request) = permission_response(&snapshot(true, false, false, false));
    assert!(r.granted);
    assert!(!request);
    assert_eq!(r.message, "Screen capture permission granted");
}

#[test]
fn permission_probe_requests_when_missing() {
    let (r, request) = permission_response(&snapshot(false, false, false, false));
    assert!(!r.granted);
    assert!(request);
    assert_eq!(
        r.message,
        "Permission requested. Please grant access in System Settings > Privacy > Screen Recording"
    );
}

#[test]
fn capture_gate_refuses_without_permission() {
    let gate = capture_gate(&snapshot(false, true, false, false)).expect("a refusal");
    assert_eq!(gate.status, 403);
    assert_eq!(gate.code, "PERMISSION_DENIED");
    assert_eq!(
        gate.error,
        "Screen capture permission not granted. Visit /permission to request."
    );
}

#[test]
fn capture_gate_passes_with_permission() {
    assert!(capture_gate(&snapshot(true, false, false, false)).is_none());
}

#[test]
fn speech_status_mirrors_snapshot() {
    let r = speech_status_response(&snapshot(false, true, true, false));
    assert!(r.listening);
    assert!(!r.speaking);
    assert!(r.has_permission);
}

#[test]
fn listen_refused_without_permission() {
    let (r, request) = start_listen_response(false, false);
    assert!(!r.success);
    assert!(request);
    assert_eq!(
        r.message,
        "Speech permission not granted. Please grant in System Settings > Privacy > Speech Recognition"
    );
}

#[test]
fn listen_starts_with_permission_and_provider() {
    let (r, request) = start_listen_response(true, true);
    assert!(r.success);
    assert!(!request);
    assert_eq!(r.message, "Started listening");
}

#[test]
fn listen_fails_when_provider_refuses() {
    let (r, request) = start_listen_response(true, false);
    assert!(!r.success);
    assert!(!request);
    assert_eq!(r.message, "Failed to start speech recognition");
}

#[test]
fn stop_listening_always_succeeds() {
    let r = stop_listen_response();
    assert!(r.success);
    assert_eq!(r.message, "Stopped listening");
}

#[test]
fn transcription_body_passes_text_through() {
    let r = transcription_response(Some(String::from("hello studio")), true);
    assert_eq!(r.text, Some(String::from("hello studio")));
    assert!(r.listening);
    let r = transcription_response(None, false);
    assert_eq!(r.text, None);
    assert!(!r.listening);
}

#[test]
fn speak_body_reports_outcome() {
    let r = speak_response(true);
    assert!(r.success);
    assert_eq!(r.message, "Speaking");
    let r = speak_response(false);
    assert!(!r.success);
    assert_eq!(r.message, "Failed to speak");
}

#[test]
fn silence_always_succeeds() {
    let r = silence_response();
    assert!(r.success);
    assert_eq!(r.message, "Stopped speaking");
}

#[test]
fn gate_starts_unknown_and_fails_closed() {
    let g = PermissionGate::new();
    assert_eq!(g.capture, PermissionState::Unknown);
    assert_eq!(g.speech, PermissionState::Unknown);
    assert!(!g.has_capture_permission());
    assert!(!g.has_speech_permission());
    assert!(!g.has_permission(Capability::ScreenCapture));
}

#[test]
fn request_prompts_once_per_unresolved_request() {
    let mut g = PermissionGate::new();
    assert!(g.request_permission());
    assert!(!g.request_permission());
    g.observe_permission(Capability::ScreenCapture, false);
    assert!(!g.has_capture_permission());
    assert!(g.request_permission());
}

#[test]
fn granted_capability_is_not_prompted() {
    let mut g = PermissionGate::new();
    g.observe_permission(Capability::ScreenCapture, true);
    assert!(g.has_capture_permission());
    assert!(!g.request_permission());
}

#[test]
fn capabilities_do_not_interfere() {
    let mut g = PermissionGate::new();
    g.observe_permission(Capability::SpeechRecognition, true);
    assert!(g.has_speech_permission());
    assert!(!g.has_capture_permission());
    assert!(g.request_permission());
    assert!(!g.request_stt_permission());
    assert_eq!(g.speech, PermissionState::Granted);
}
