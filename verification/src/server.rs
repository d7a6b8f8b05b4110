//! The HTTP command surface's response shapes and handler decisions.
//!
//! Each route of the local API is a stateless wrapper: it reads a snapshot of
//! the provider's state (permissions, listening, speaking, the transcript),
//! lets a function here decide the response body, the status code and any
//! side action, and sends the body as JSON outside this crate. The health
//! probe and the dedicated permission and speech-status probes all read the
//! same snapshot fields, so their permission booleans agree at the same
//! instant.

use vstd::prelude::*;
use vstd::string::StringExecFns;

use crate::capture::CaptureFailure;

verus! {

/// HTTP status for a refused capture: permission not granted.
pub const STATUS_FORBIDDEN: u16 = 403;

/// HTTP status for a capture the provider could not deliver.
pub const STATUS_SERVICE_UNAVAILABLE: u16 = 503;

/// What the route handlers see of the provider at one instant.
#[derive(Clone, Copy, PartialEq, Eq, Structural, Debug)]
pub struct StatusSnapshot {
    pub capture_permission: bool,
    pub speech_permission: bool,
    pub listening: bool,
    pub speaking: bool,
}

/// Body of the health probe.
pub struct HealthResponse {
    pub status: String,
    pub version: String,
    pub has_capture_permission: bool,
    pub has_speech_permission: bool,
}

/// Body of the screen-capture permission probe.
pub struct PermissionResponse {
    pub granted: bool,
    pub message: String,
}

/// Error body of the capture route, with its status code.
pub struct CaptureErrorResponse {
    pub status: u16,
    pub error: String,
    pub code: String,
}

/// What the capture route answers: image bytes, or an error with a status.
pub enum CaptureHttpResponse {
    Png(Vec<u8>),
    Error(CaptureErrorResponse),
}

/// Body of the speech status probe.
pub struct SpeechStatusResponse {
    pub listening: bool,
    pub speaking: bool,
    pub has_permission: bool,
}

/// Body of the transcription query.
pub struct TranscriptionResponse {
    pub text: Option<String>,
    pub listening: bool,
}

/// Body of the speech commands: start, stop, speak, silence.
pub struct GenericResponse {
    pub success: bool,
    pub message: String,
}

/// The permission booleans the health probe reports.
pub open spec fn health_booleans(snap: StatusSnapshot) -> (bool, bool) {
    (snap.capture_permission, snap.speech_permission)
}

/// The boolean the permission probe reports.
pub open spec fn permission_granted(snap: StatusSnapshot) -> bool {
    snap.capture_permission
}

/// The permission boolean the speech status probe reports.
pub open spec fn speech_has_permission(snap: StatusSnapshot) -> bool {
    snap.speech_permission
}

/// The health probe's body: always "ok", the app version, and the two
/// permission booleans of the snapshot.
pub fn health_response(snap: &StatusSnapshot, version: &str) -> (r: HealthResponse)
    ensures
        r.status@ == "ok"@,
        r.version@ == version@,
        r.has_capture_permission == health_booleans(*snap).0,
        r.has_speech_permission == health_booleans(*snap).1,
{
    HealthResponse {
        status: String::from_str("ok"),
        version: String::from_str(version),
        has_capture_permission: snap.capture_permission,
        has_speech_permission: snap.speech_permission,
    }
}

/// The permission probe's body, and whether the handler must fire the
/// one-shot OS permission request: exactly when the permission is missing.
pub fn permission_response(snap: &StatusSnapshot) -> (r: (PermissionResponse, bool))
    ensures
        r.0.granted == permission_granted(*snap),
        r.1 == !permission_granted(*snap),
        permission_granted(*snap) ==> r.0.message@ == "Screen capture permission granted"@,
        !permission_granted(*snap) ==> r.0.message@
            == "Permission requested. Please grant access in System Settings > Privacy > Screen Recording"@,
{
    if snap.capture_permission {
        (
            PermissionResponse {
                granted: true,
                message: String::from_str("Screen capture permission granted"),
            },
            false,
        )
    } else {
        (
            PermissionResponse {
                granted: false,
                message: String::from_str(
                    "Permission requested. Please grant access in System Settings > Privacy > Screen Recording",
                ),
            },
            true,
        )
    }
}

/// The capture route's early refusal: without the permission the request is
/// answered 403 at once and the capture flow is never entered.
pub fn capture_gate(snap: &StatusSnapshot) -> (r: Option<CaptureErrorResponse>)
    ensures
        (r is Some) == !permission_granted(*snap),
        r matches Some(e) ==> {
            &&& e.status == STATUS_FORBIDDEN
            &&& e.code@ == "PERMISSION_DENIED"@
            &&& e.error@ == "Screen capture permission not granted. Visit /permission to request."@
        },
{
    if snap.capture_permission {
        None
    } else {
        Some(
            CaptureErrorResponse {
                status: STATUS_FORBIDDEN,
                error: String::from_str(
                    "Screen capture permission not granted. Visit /permission to request.",
                ),
                code: String::from_str("PERMISSION_DENIED"),
            },
        )
    }
}

/// The capture route's answer to a finished flow: the image bytes as they
/// are on success; on failure the status and machine-readable code of the
/// failure kind, 403 for a missing permission and 503 for everything the
/// provider could not deliver.
pub fn capture_response(outcome: Result<Vec<u8>, CaptureFailure>) -> (r: CaptureHttpResponse)
    ensures
        outcome matches Ok(data) ==> r matches CaptureHttpResponse::Png(p) && p == data,
        outcome matches Err(f) ==> r matches CaptureHttpResponse::Error(e) && {
            &&& f is PermissionDenied ==> e.status == STATUS_FORBIDDEN && e.code@
                == "PERMISSION_DENIED"@ && e.error@
                == "Screen capture permission not granted. Visit /permission to request."@
            &&& !(f is PermissionDenied) ==> e.status == STATUS_SERVICE_UNAVAILABLE && e.code@
                == "CAPTURE_FAILED"@ && e.error@
                == "Failed to capture Roblox Studio. Is it running?"@
        },
{
    match outcome {
        Ok(data) => CaptureHttpResponse::Png(data),
        Err(failure) => {
            if matches!(failure, CaptureFailure::PermissionDenied) {
                CaptureHttpResponse::Error(
                    CaptureErrorResponse {
                        status: STATUS_FORBIDDEN,
                        error: String::from_str(
                            "Screen capture permission not granted. Visit /permission to request.",
                        ),
                        code: String::from_str("PERMISSION_DENIED"),
                    },
                )
            } else {
                CaptureHttpResponse::Error(
                    CaptureErrorResponse {
                        status: STATUS_SERVICE_UNAVAILABLE,
                        error: String::from_str("Failed to capture Roblox Studio. Is it running?"),
                        code: String::from_str("CAPTURE_FAILED"),
                    },
                )
            }
        }
    }
}

/// The speech status probe's body: the snapshot, field for field.
pub fn speech_status_response(snap: &StatusSnapshot) -> (r: SpeechStatusResponse)
    ensures
        r.listening == snap.listening,
        r.speaking == snap.speaking,
        r.has_permission == speech_has_permission(*snap),
{
    SpeechStatusResponse {
        listening: snap.listening,
        speaking: snap.speaking,
        has_permission: snap.speech_permission,
    }
}

/// The listen command's body, and whether the handler must fire the one-shot
/// OS permission request: success exactly when the permission is granted and
/// the provider agreed to start.
pub fn start_listen_response(permission: bool, provider_started: bool) -> (r: (
    GenericResponse,
    bool,
))
    ensures
        r.0.success == (permission && provider_started),
        r.1 == !permission,
        !permission ==> r.0.message@
            == "Speech permission not granted. Please grant in System Settings > Privacy > Speech Recognition"@,
        permission && provider_started ==> r.0.message@ == "Started listening"@,
        permission && !provider_started ==> r.0.message@ == "Failed to start speech recognition"@,
{
    if !permission {
        (
            GenericResponse {
                success: false,
                message: String::from_str(
                    "Speech permission not granted. Please grant in System Settings > Privacy > Speech Recognition",
                ),
            },
            true,
        )
    } else if provider_started {
        (GenericResponse { success: true, message: String::from_str("Started listening") }, false)
    } else {
        (
            GenericResponse {
                success: false,
                message: String::from_str("Failed to start speech recognition"),
            },
            false,
        )
    }
}

/// The stop command's body: stopping always succeeds.
pub fn stop_listen_response() -> (r: GenericResponse)
    ensures
        r.success,
        r.message@ == "Stopped listening"@,
{
    GenericResponse { success: true, message: String::from_str("Stopped listening") }
}

/// The transcription query's body: the session's answer and listening state,
/// unchanged.
pub fn transcription_response(text: Option<String>, listening: bool) -> (r: TranscriptionResponse)
    ensures
        r.text == text,
        r.listening == listening,
{
    TranscriptionResponse { text, listening }
}

/// The speak command's body: success exactly when the session reported the
/// text spoken.
pub fn speak_response(spoken: bool) -> (r: GenericResponse)
    ensures
        r.success == spoken,
        spoken ==> r.message@ == "Speaking"@,
        !spoken ==> r.message@ == "Failed to speak"@,
{
    if spoken {
        GenericResponse { success: true, message: String::from_str("Speaking") }
    } else {
        GenericResponse { success: false, message: String::from_str("Failed to speak") }
    }
}

/// The silence command's body: stopping speech always succeeds.
pub fn silence_response() -> (r: GenericResponse)
    ensures
        r.success,
        r.message@ == "Stopped speaking"@,
{
    GenericResponse { success: true, message: String::from_str("Stopped speaking") }
}

/// The health probe and the dedicated probes answer from the same snapshot:
/// its capture boolean is what the permission probe grants, its speech
/// boolean is what the speech status probe reports, at the same instant.
pub proof fn lemma_health_matches_probes(snap: StatusSnapshot)
    ensures
        health_booleans(snap).0 == permission_granted(snap),
        health_booleans(snap).1 == speech_has_permission(snap),
{
}

} // verus!
