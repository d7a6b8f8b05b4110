//! The speech command surface: one listening session and one speaking axis.
//!
//! The OS speech frameworks own the live recognition and synthesis; this type
//! is the surface's record of that state, driven by the provider's answers.
//! Listening moves between `Idle` and `Listening` (a `bool` here), with the
//! latest buffered transcript kept beside it; an empty transcript counts as
//! absent. Speaking is an independent axis. Starting a session needs the
//! speech permission and the provider's consent and fails closed; stopping
//! always succeeds, is idempotent, and keeps the transcript.

use vstd::prelude::*;
use vstd::string::StrSliceExecFns;

verus! {

/// The session state as contracts speak of it.
pub struct SessionView {
    pub listening: bool,
    pub speaking: bool,
    pub transcript: Seq<char>,
}

/// One process's speech session: whether it listens, whether it speaks, and
/// the latest transcript the provider buffered (empty means none yet).
pub struct SpeechSession {
    pub listening: bool,
    pub speaking: bool,
    pub transcript: String,
}

impl View for SpeechSession {
    type V = SessionView;

    open spec fn view(&self) -> SessionView {
        SessionView {
            listening: self.listening,
            speaking: self.speaking,
            transcript: self.transcript@,
        }
    }
}

/// Text the synthesizer can be handed: non-empty and free of embedded NUL
/// characters, which the C string boundary cannot carry.
pub open spec fn valid_speech_text(text: Seq<char>) -> bool {
    &&& text.len() > 0
    &&& forall|i: int| 0 <= i < text.len() ==> text[i] != '\0'
}

/// The session after trying to start listening: only a permission grant
/// together with the provider's consent starts a session, and a fresh
/// session starts with an empty transcript buffer.
pub open spec fn spec_start(v: SessionView, permission: bool, provider_started: bool) -> SessionView {
    if permission && provider_started {
        SessionView { listening: true, speaking: v.speaking, transcript: Seq::empty() }
    } else {
        v
    }
}

/// The session after stopping: idle, transcript and speaking untouched.
pub open spec fn spec_stop(v: SessionView) -> SessionView {
    SessionView { listening: false, ..v }
}

/// The session after the provider's buffer was read: the transcript mirrors
/// it, the rest is untouched.
pub open spec fn spec_record(v: SessionView, text: Seq<char>) -> SessionView {
    SessionView { transcript: text, ..v }
}

/// What the transcription query answers: the buffered transcript, with an
/// empty buffer treated as absent.
pub open spec fn spec_transcription(v: SessionView) -> Option<Seq<char>> {
    if v.transcript.len() == 0 {
        None
    } else {
        Some(v.transcript)
    }
}

impl SpeechSession {
    /// A fresh session: idle, silent, nothing buffered.
    pub fn new() -> (s: SpeechSession)
        ensures
            !s@.listening,
            !s@.speaking,
            s@.transcript =~= Seq::<char>::empty(),
    {
        SpeechSession { listening: false, speaking: false, transcript: String::new() }
    }

    /// Try to move `Idle -> Listening`. `permission_granted` is the permission
    /// check's answer, `provider_started` the provider's; the transition
    /// happens only when both hold, and then the transcript buffer starts
    /// empty.
    pub fn start_listening(&mut self, permission_granted: bool, provider_started: bool) -> (r: bool)
        ensures
            r == (permission_granted && provider_started),
            final(self)@ == spec_start(old(self)@, permission_granted, provider_started),
    {
        if permission_granted && provider_started {
            self.listening = true;
            self.transcript = String::new();
            true
        } else {
            false
        }
    }

    /// Move to `Idle`. Always succeeds, is idempotent, and keeps the
    /// transcript and the speaking axis as they are.
    pub fn stop_listening(&mut self)
        ensures
            final(self)@ == spec_stop(old(self)@),
    {
        self.listening = false;
    }

    /// Whether a listening session is active.
    pub fn is_currently_listening(&self) -> (r: bool)
        ensures
            r == self@.listening,
    {
        self.listening
    }

    /// Mirror what the provider's transcription buffer holds.
    pub fn record_transcription(&mut self, text: String)
        ensures
            final(self)@ == spec_record(old(self)@, text@),
    {
        self.transcript = text;
    }

    /// The latest transcript, with an empty buffer treated as absent. Valid
    /// whether or not the session is listening.
    pub fn get_current_transcription(&self) -> (r: Option<String>)
        ensures
            (r is Some) == (spec_transcription(self@) is Some),
            r matches Some(t) ==> spec_transcription(self@) == Some(t@),
    {
        if self.transcript.as_str().unicode_len() == 0 {
            None
        } else {
            Some(self.transcript.clone())
        }
    }

    /// Try to speak. Only valid text that the provider accepted counts as
    /// spoken; the result reports exactly that, and the listening axis is
    /// untouched. The caller hands invalid text to no provider and passes
    /// `provider_accepted == false` for it.
    pub fn speak(&mut self, text: &str, provider_accepted: bool) -> (r: bool)
        ensures
            r == (valid_speech_text(text@) && provider_accepted),
            final(self)@.speaking == (r || old(self)@.speaking),
            final(self)@.listening == old(self)@.listening,
            final(self)@.transcript == old(self)@.transcript,
    {
        let valid = can_speak(text);
        if valid && provider_accepted {
            self.speaking = true;
            true
        } else {
            false
        }
    }

    /// Stop speaking. Always succeeds; the listening axis is untouched.
    pub fn stop_tts(&mut self)
        ensures
            !final(self)@.speaking,
            final(self)@.listening == old(self)@.listening,
            final(self)@.transcript == old(self)@.transcript,
    {
        self.speaking = false;
    }

    /// Whether the synthesizer is speaking.
    pub fn is_currently_speaking(&self) -> (r: bool)
        ensures
            r == self@.speaking,
    {
        self.speaking
    }
}

/// Whether text may be handed to the synthesizer: non-empty, no embedded NUL.
/// This is the check the surface makes before any provider call.
pub fn can_speak(text: &str) -> (r: bool)
    ensures
        r == valid_speech_text(text@),
{
    let n = text.unicode_len();
    if n == 0 {
        return false;
    }
    let mut i: usize = 0;
    while i < n
        invariant
            n == text@.len(),
            0 <= i <= n,
            forall|j: int| 0 <= j < i ==> text@[j] != '\0',
        decreases n - i,
    {
        if text.get_char(i) == '\0' {
            return false;
        }
        i += 1;
    }
    true
}

/// Stopping keeps the transcript: the query answers the same before and
/// after a stop. In particular a session that buffered text `t` last still
/// answers `t` when `t` is non-empty, and a session whose run buffered
/// nothing answers nothing once stopped.
pub proof fn lemma_transcript_survives_stop(v: SessionView, t: Seq<char>)
    ensures
        spec_transcription(spec_stop(v)) == spec_transcription(v),
        t.len() > 0 ==> spec_transcription(spec_stop(spec_record(v, t))) == Some(t),
        spec_transcription(spec_stop(spec_start(v, true, true))) is None,
{
}

} // verus!
