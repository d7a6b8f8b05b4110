//! The window-snap loop's decisions.
//!
//! While snap mode is on, the app polls the Studio window's bounds at a fixed
//! tick and, when they changed since the last tick, moves its own window
//! immediately to the right of Studio, matching Studio's height. The poll and
//! the actual move happen outside this crate; `snap_tick` is the decision the
//! loop makes each tick. A disabled tick decides nothing and records nothing,
//! so switching snap mode off halts repositioning at the next tick, and the
//! window is never moved while snap mode is off. A failed bounds lookup is no
//! update, not an error.

use vstd::prelude::*;

verus! {

/// One window's bounds, as the OS reports them.
#[derive(Clone, Copy, PartialEq, Eq, Structural, Debug)]
pub struct WindowBounds {
    pub x: i32,
    pub y: i32,
    pub width: i32,
    pub height: i32,
}

/// Where the loop wants its own window: position and height; the window
/// keeps its own width.
#[derive(Clone, Copy, PartialEq, Eq, Structural, Debug)]
pub struct WindowPlacement {
    pub x: i64,
    pub y: i64,
    pub height: i64,
}

/// The loop's state: the enable flag and the target bounds last acted on.
#[derive(Clone, Copy, PartialEq, Eq, Structural, Debug)]
pub struct SnapState {
    pub enabled: bool,
    pub last: Option<WindowBounds>,
}

/// Where a window belongs relative to its snap target: immediately to the
/// right, top edges aligned, heights matching.
pub open spec fn spec_placement(target: WindowBounds) -> WindowPlacement {
    WindowPlacement {
        x: (target.x + target.width) as i64,
        y: target.y as i64,
        height: target.height as i64,
    }
}

/// One tick's decision: the state after the tick and the placement to apply,
/// if any. Disabled ticks and failed lookups decide nothing; unchanged
/// bounds decide nothing; changed bounds are recorded and answered with
/// their placement.
pub open spec fn spec_tick(state: SnapState, lookup: Option<WindowBounds>) -> (
    SnapState,
    Option<WindowPlacement>,
) {
    if !state.enabled {
        (state, None)
    } else {
        match lookup {
            None => (state, None),
            Some(bounds) => if state.last == Some(bounds) {
                (state, None)
            } else {
                (SnapState { enabled: true, last: Some(bounds) }, Some(spec_placement(bounds)))
            },
        }
    }
}

/// A fresh loop state: disabled, nothing acted on yet.
pub fn snap_start() -> (s: SnapState)
    ensures
        !s.enabled,
        s.last is None,
{
    SnapState { enabled: false, last: None }
}

/// Switch snap mode on or off. The recorded bounds stay as they are.
pub fn set_snap_enabled(state: &mut SnapState, on: bool)
    ensures
        final(state).enabled == on,
        final(state).last == old(state).last,
{
    state.enabled = on;
}

/// The placement beside a target window, computed without overflow.
pub fn place_beside(target: WindowBounds) -> (r: WindowPlacement)
    ensures
        r == spec_placement(target),
{
    WindowPlacement {
        x: target.x as i64 + target.width as i64,
        y: target.y as i64,
        height: target.height as i64,
    }
}

/// One tick: consume the bounds lookup's answer and decide whether to move
/// the window.
pub fn snap_tick(state: &mut SnapState, lookup: Option<WindowBounds>) -> (r: Option<
    WindowPlacement,
>)
    ensures
        *final(state) == spec_tick(*old(state), lookup).0,
        r == spec_tick(*old(state), lookup).1,
{
    if !state.enabled {
        return None;
    }
    match lookup {
        None => None,
        Some(bounds) => {
            let unchanged = match &state.last {
                Some(prev) => prev.x == bounds.x && prev.y == bounds.y && prev.width
                    == bounds.width && prev.height == bounds.height,
                None => false,
            };
            if unchanged {
                None
            } else {
                state.last = Some(bounds);
                Some(place_beside(bounds))
            }
        }
    }
}

/// While snap mode is off, a tick neither moves the window nor touches the
/// state, whatever the lookup returned; so disabling halts repositioning at
/// the next tick at the latest.
pub proof fn lemma_disabled_tick_is_inert(state: SnapState, lookup: Option<WindowBounds>)
    requires
        !state.enabled,
    ensures
        spec_tick(state, lookup).1 is None,
        spec_tick(state, lookup).0 == state,
{
}

/// The loop state after a run of ticks, one lookup answer per tick.
pub open spec fn spec_run(state: SnapState, lookups: Seq<Option<WindowBounds>>) -> SnapState
    decreases lookups.len(),
{
    if lookups.len() == 0 {
        state
    } else {
        spec_tick(spec_run(state, lookups.drop_last()), lookups.last()).0
    }
}

/// A whole run of ticks made while snap mode is off leaves the state exactly
/// as it was, and not one of its ticks moves the window.
pub proof fn lemma_disabled_run_is_inert(state: SnapState, lookups: Seq<Option<WindowBounds>>)
    requires
        !state.enabled,
    ensures
        spec_run(state, lookups) == state,
        forall|i: int|
            0 <= i < lookups.len() ==> spec_tick(
                spec_run(state, lookups.take(i)),
                lookups[i],
            ).1 is None,
    decreases lookups.len(),
{
    if lookups.len() > 0 {
        let head = lookups.drop_last();
        lemma_disabled_run_is_inert(state, head);
        assert forall|i: int|
            0 <= i < lookups.len() implies spec_tick(
            spec_run(state, lookups.take(i)),
            lookups[i],
        ).1 is None by {
            if i < lookups.len() - 1 {
                assert(lookups.take(i) =~= head.take(i));
                assert(lookups[i] == head[i]);
            } else {
                assert(lookups.take(i) =~= head);
            }
        }
    }
}

} // verus!
