//! Permission gate for the two OS capabilities the command surface needs.
//!
//! The OS owns the real permission state; this type records what has been
//! observed of it and whether an unresolved permission prompt is already
//! outstanding, so that a request triggers the OS dialog at most once per
//! unresolved request.

use vstd::prelude::*;

verus! {

/// OS-level permission for one capability, as last observed.
#[derive(Clone, Copy, PartialEq, Eq, Structural, Debug)]
pub enum PermissionState {
    Unknown,
    Denied,
    Granted,
}

/// The two capabilities the command surface gates on.
#[derive(Clone, Copy, PartialEq, Eq, Structural, Debug)]
pub enum Capability {
    ScreenCapture,
    SpeechRecognition,
}

/// Observed permission state per capability, plus whether an OS permission
/// dialog is already outstanding for it.
#[derive(Clone, Copy, PartialEq, Eq, Structural, Debug)]
pub struct PermissionGate {
    pub capture: PermissionState,
    pub speech: PermissionState,
    pub capture_prompted: bool,
    pub speech_prompted: bool,
}

impl PermissionGate {
    /// The observed state of one capability.
    pub open spec fn state_of(self, cap: Capability) -> PermissionState {
        match cap {
            Capability::ScreenCapture => self.capture,
            Capability::SpeechRecognition => self.speech,
        }
    }

    /// Whether an OS dialog is outstanding for one capability.
    pub open spec fn prompted(self, cap: Capability) -> bool {
        match cap {
            Capability::ScreenCapture => self.capture_prompted,
            Capability::SpeechRecognition => self.speech_prompted,
        }
    }

    /// A fresh gate: nothing observed, no prompt outstanding.
    pub fn new() -> (g: PermissionGate)
        ensures
            g.capture is Unknown,
            g.speech is Unknown,
            !g.capture_prompted,
            !g.speech_prompted,
    {
        PermissionGate {
            capture: PermissionState::Unknown,
            speech: PermissionState::Unknown,
            capture_prompted: false,
            speech_prompted: false,
        }
    }

    /// Whether a capability is granted. Anything short of an observed grant
    /// counts as not granted: permission checks fail closed.
    pub fn has_permission(&self, cap: Capability) -> (r: bool)
        ensures
            r == (self.state_of(cap) is Granted),
    {
        match cap {
            Capability::ScreenCapture => matches!(self.capture, PermissionState::Granted),
            Capability::SpeechRecognition => matches!(self.speech, PermissionState::Granted),
        }
    }

    /// Whether screen-capture permission is granted.
    pub fn has_capture_permission(&self) -> (r: bool)
        ensures
            r == (self.capture is Granted),
    {
        self.has_permission(Capability::ScreenCapture)
    }

    /// Whether speech-recognition permission is granted.
    pub fn has_speech_permission(&self) -> (r: bool)
        ensures
            r == (self.speech is Granted),
    {
        self.has_permission(Capability::SpeechRecognition)
    }

    /// Ask for a capability. The result says whether the caller must now show
    /// the OS permission dialog: only when the capability is not granted and
    /// no dialog is outstanding yet, so each unresolved request prompts at
    /// most once. The request itself grants nothing; callers re-check later.
    pub fn request_capability(&mut self, cap: Capability) -> (prompt: bool)
        ensures
            prompt == (!(old(self).state_of(cap) is Granted) && !old(self).prompted(cap)),
            final(self).state_of(cap) == old(self).state_of(cap),
            final(self).prompted(cap) == (old(self).prompted(cap) || prompt),
            final(self).state_of(other_capability(cap)) == old(self).state_of(other_capability(cap)),
            final(self).prompted(other_capability(cap)) == old(self).prompted(other_capability(cap)),
    {
        match cap {
            Capability::ScreenCapture => {
                let prompt = !matches!(self.capture, PermissionState::Granted)
                    && !self.capture_prompted;
                if prompt {
                    self.capture_prompted = true;
                }
                prompt
            }
            Capability::SpeechRecognition => {
                let prompt = !matches!(self.speech, PermissionState::Granted)
                    && !self.speech_prompted;
                if prompt {
                    self.speech_prompted = true;
                }
                prompt
            }
        }
    }

    /// Ask for screen-capture permission.
    pub fn request_permission(&mut self) -> (prompt: bool)
        ensures
            prompt == (!(old(self).capture is Granted) && !old(self).capture_prompted),
            final(self).capture == old(self).capture,
            final(self).capture_prompted == (old(self).capture_prompted || prompt),
            final(self).speech == old(self).speech,
            final(self).speech_prompted == old(self).speech_prompted,
    {
        self.request_capability(Capability::ScreenCapture)
    }

    /// Ask for speech-recognition permission.
    pub fn request_stt_permission(&mut self) -> (prompt: bool)
        ensures
            prompt == (!(old(self).speech is Granted) && !old(self).speech_prompted),
            final(self).speech == old(self).speech,
            final(self).speech_prompted == (old(self).speech_prompted || prompt),
            final(self).capture == old(self).capture,
            final(self).capture_prompted == old(self).capture_prompted,
    {
        self.request_capability(Capability::SpeechRecognition)
    }

    /// Record an OS-level grant or revoke. Resolving a request clears its
    /// outstanding prompt, so a later request may prompt again.
    pub fn observe_permission(&mut self, cap: Capability, granted: bool)
        ensures
            final(self).state_of(cap) == (if granted {
                PermissionState::Granted
            } else {
                PermissionState::Denied
            }),
            !final(self).prompted(cap),
            final(self).state_of(other_capability(cap)) == old(self).state_of(other_capability(cap)),
            final(self).prompted(other_capability(cap)) == old(self).prompted(other_capability(cap)),
    {
        let state = if granted {
            PermissionState::Granted
        } else {
            PermissionState::Denied
        };
        match cap {
            Capability::ScreenCapture => {
                self.capture = state;
                self.capture_prompted = false;
            }
            Capability::SpeechRecognition => {
                self.speech = state;
                self.speech_prompted = false;
            }
        }
    }
}

/// The capability a gate operation does not touch.
pub open spec fn other_capability(cap: Capability) -> Capability {
    match cap {
        Capability::ScreenCapture => Capability::SpeechRecognition,
        Capability::SpeechRecognition => Capability::ScreenCapture,
    }
}

} // verus!
