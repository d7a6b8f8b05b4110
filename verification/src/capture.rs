//! The viewport-capture flow.
//!
//! A capture runs through three provider calls in a fixed order: check the
//! screen-capture permission, look the Studio window up, invoke the capture
//! itself. The calls are made outside this crate; this module owns the flow
//! between them as a small state machine. Each phase names the one call that
//! is pending, the driver feeds the call's answer back as an event, and the
//! step function decides the next phase. The machine fails closed: without an
//! observed permission grant the flow finishes `Denied` and the capture call
//! is never pending.

use vstd::prelude::*;

verus! {

/// Why a capture flow finished without image bytes.
#[derive(Clone, Copy, PartialEq, Eq, Structural, Debug)]
pub enum CaptureFailure {
    /// Screen-capture permission is not granted.
    PermissionDenied,
    /// The Studio window does not exist (the app is not running).
    WindowNotFound,
    /// The provider returned no data, or empty data.
    CaptureFailed,
}

/// Where a capture flow stands.
#[derive(Clone, Copy, PartialEq, Eq, Structural, Debug)]
pub enum CapturePhase {
    /// Nothing happened yet; the permission check is pending.
    Start,
    /// Permission was seen granted; the window lookup is pending.
    AwaitWindow,
    /// The window was found; the provider capture call is pending.
    AwaitData,
    /// Finished: permission was not granted.
    Denied,
    /// Finished: the Studio window was not found.
    NoWindow,
    /// Finished: the provider handed non-empty image bytes back.
    Captured,
    /// Finished: the provider returned no data, or empty data.
    Failed,
}

/// The provider call a phase waits for.
#[derive(Clone, Copy, PartialEq, Eq, Structural, Debug)]
pub enum CaptureCall {
    CheckPermission,
    LookUpWindow,
    InvokeCapture,
    NoCall,
}

/// The answer of one provider call.
pub enum CaptureEvent {
    /// Whether screen-capture permission is granted.
    PermissionChecked(bool),
    /// The Studio window id; zero means no such window.
    WindowLooked(i64),
    /// What the capture call produced, if anything.
    DataArrived(Option<Vec<u8>>),
}

/// The provider call that a phase is waiting for; finished phases wait for
/// none.
pub open spec fn pending_call(phase: CapturePhase) -> CaptureCall {
    match phase {
        CapturePhase::Start => CaptureCall::CheckPermission,
        CapturePhase::AwaitWindow => CaptureCall::LookUpWindow,
        CapturePhase::AwaitData => CaptureCall::InvokeCapture,
        _ => CaptureCall::NoCall,
    }
}

/// Whether an event answers the call that a phase is waiting for.
pub open spec fn answers(phase: CapturePhase, event: CaptureEvent) -> bool {
    match event {
        CaptureEvent::PermissionChecked(_) => phase is Start,
        CaptureEvent::WindowLooked(_) => phase is AwaitWindow,
        CaptureEvent::DataArrived(_) => phase is AwaitData,
    }
}

/// The phase after an event. An event that answers no pending call changes
/// nothing.
pub open spec fn next_phase(phase: CapturePhase, event: CaptureEvent) -> CapturePhase {
    match (phase, event) {
        (CapturePhase::Start, CaptureEvent::PermissionChecked(granted)) => if granted {
            CapturePhase::AwaitWindow
        } else {
            CapturePhase::Denied
        },
        (CapturePhase::AwaitWindow, CaptureEvent::WindowLooked(id)) => if id == 0 {
            CapturePhase::NoWindow
        } else {
            CapturePhase::AwaitData
        },
        (CapturePhase::AwaitData, CaptureEvent::DataArrived(data)) => match data {
            Some(bytes) => if bytes@.len() > 0 {
                CapturePhase::Captured
            } else {
                CapturePhase::Failed
            },
            None => CapturePhase::Failed,
        },
        _ => phase,
    }
}

/// Whether the step asks the driver to fire the one-shot OS permission
/// prompt: exactly on a permission check that came back negative.
pub open spec fn prompts(phase: CapturePhase, event: CaptureEvent) -> bool {
    phase is Start && event matches CaptureEvent::PermissionChecked(false)
}

/// The failure a finished phase stands for; unfinished phases and a
/// successful capture have none.
pub open spec fn failure_of(phase: CapturePhase) -> Option<CaptureFailure> {
    match phase {
        CapturePhase::Denied => Some(CaptureFailure::PermissionDenied),
        CapturePhase::NoWindow => Some(CaptureFailure::WindowNotFound),
        CapturePhase::Failed => Some(CaptureFailure::CaptureFailed),
        _ => None,
    }
}

/// One step of the capture flow: consume the answer of the pending call and
/// decide the next phase, whether to fire the OS permission prompt, and the
/// captured bytes once the provider handed non-empty data back.
pub fn capture_step(phase: CapturePhase, event: CaptureEvent) -> (r: (
    CapturePhase,
    bool,
    Option<Vec<u8>>,
))
    requires
        answers(phase, event),
    ensures
        r.0 == next_phase(phase, event),
        r.1 == prompts(phase, event),
        match event {
            CaptureEvent::DataArrived(data) => r.2 == (if r.0 is Captured {
                data
            } else {
                None::<Vec<u8>>
            }),
            _ => r.2 is None,
        },
{
    match event {
        CaptureEvent::PermissionChecked(granted) => {
            if granted {
                (CapturePhase::AwaitWindow, false, None)
            } else {
                (CapturePhase::Denied, true, None)
            }
        }
        CaptureEvent::WindowLooked(id) => {
            if id == 0 {
                (CapturePhase::NoWindow, false, None)
            } else {
                (CapturePhase::AwaitData, false, None)
            }
        }
        CaptureEvent::DataArrived(data) => {
            match data {
                Some(bytes) => {
                    if bytes.len() > 0 {
                        (CapturePhase::Captured, false, Some(bytes))
                    } else {
                        (CapturePhase::Failed, false, None)
                    }
                }
                None => (CapturePhase::Failed, false, None),
            }
        }
    }
}

/// The provider call to make next, for the driver.
pub fn capture_pending(phase: CapturePhase) -> (r: CaptureCall)
    ensures
        r == pending_call(phase),
{
    match phase {
        CapturePhase::Start => CaptureCall::CheckPermission,
        CapturePhase::AwaitWindow => CaptureCall::LookUpWindow,
        CapturePhase::AwaitData => CaptureCall::InvokeCapture,
        _ => CaptureCall::NoCall,
    }
}

/// The failure a finished phase stands for, for the driver.
pub fn capture_failure(phase: CapturePhase) -> (r: Option<CaptureFailure>)
    ensures
        r == failure_of(phase),
{
    match phase {
        CapturePhase::Denied => Some(CaptureFailure::PermissionDenied),
        CapturePhase::NoWindow => Some(CaptureFailure::WindowNotFound),
        CapturePhase::Failed => Some(CaptureFailure::CaptureFailed),
        _ => None,
    }
}

/// The phase a flow reaches from the start after a run of events.
pub open spec fn run_capture(events: Seq<CaptureEvent>) -> CapturePhase
    decreases events.len(),
{
    if events.len() == 0 {
        CapturePhase::Start
    } else {
        next_phase(run_capture(events.drop_last()), events.last())
    }
}

/// A flow whose permission check never came back granted stays at `Start` or
/// finishes `Denied`: the capture call is never pending, so the provider is
/// never invoked, and nothing is ever captured.
pub proof fn lemma_no_capture_without_grant(events: Seq<CaptureEvent>)
    requires
        forall|i: int|
            0 <= i < events.len() ==> !(#[trigger] events[i] matches CaptureEvent::PermissionChecked(
                true,
            )),
    ensures
        run_capture(events) is Start || run_capture(events) is Denied,
        pending_call(run_capture(events)) != CaptureCall::InvokeCapture,
        !(run_capture(events) is Captured),
        run_capture(events) is Denied ==> failure_of(run_capture(events)) == Some(
            CaptureFailure::PermissionDenied,
        ),
    decreases events.len(),
{
    if events.len() > 0 {
        let head = events.drop_last();
        assert forall|i: int|
            0 <= i < head.len() implies !(#[trigger] head[i] matches CaptureEvent::PermissionChecked(
            true,
        )) by {
            assert(head[i] == events[i]);
        }
        lemma_no_capture_without_grant(head);
        assert(!(events[events.len() - 1] matches CaptureEvent::PermissionChecked(true)));
    }
}

} // verus!
