//! Touch gesture recognition.
//!
//! A gesture starts with a touch-down, may be followed by motion and ends
//! with a release. The recognizer decides what the gesture means: a tap, a
//! double or triple tap, a drag that scrolls, or a drag of one of the two
//! selection handles. Distances are measured by the caller, who hands in
//! only whether a threshold was crossed.

use crate::config::MillisDuration;
use vstd::prelude::*;

verus! {

/// Intention of a touch sequence.
#[derive(PartialEq, Eq, Structural, Copy, Clone, Debug)]
pub enum TouchAction {
    Tap,
    DoubleTap,
    TripleTap,
    Drag,
    DragSelectionStart,
    DragSelectionEnd,
}

impl Default for TouchAction {
    fn default() -> (action: Self)
        ensures
            action == TouchAction::Tap,
    {
        TouchAction::Tap
    }
}

/// The point from which the distance of a motion event counts.
#[derive(PartialEq, Eq, Structural, Copy, Clone, Debug)]
pub enum MotionOrigin {
    /// The previous motion event, or the touch-down if there was none.
    LastMotion,
    /// The touch-down of this gesture.
    TouchDown,
}

/// Touch event tracking.
#[derive(PartialEq, Eq, Structural, Copy, Clone, Debug)]
pub struct TouchState {
    /// Classification of the current gesture.
    pub action: TouchAction,
    /// Time of the last touch-down in milliseconds.
    pub last_time: u32,
    /// Byte offset under the last touch-down.
    pub start_offset: usize,
}

/// Whether a touch-down at `time` follows the one at `last_time` closely
/// enough to count as a repeated tap.
pub open spec fn within_multi_tap(
    last_time: u32,
    max_multi_tap: MillisDuration,
    time: u32,
) -> bool {
    time <= last_time + max_multi_tap.0
}

/// The classification of a tap that repeats a gesture classified as `action`.
pub open spec fn repeated_tap(action: TouchAction) -> TouchAction {
    match action {
        TouchAction::Tap => TouchAction::DoubleTap,
        TouchAction::DoubleTap => TouchAction::TripleTap,
        _ => TouchAction::Tap,
    }
}

/// The classification of a touch-down.
pub open spec fn down_action(
    action: TouchAction,
    in_time: bool,
    near_last_tap: bool,
) -> TouchAction {
    if in_time && near_last_tap {
        repeated_tap(action)
    } else {
        TouchAction::Tap
    }
}

/// How far the offset where a gesture began lies from the two ends of the
/// selection, in characters, counted up to two.
#[derive(PartialEq, Eq, Structural, Copy, Clone, Debug)]
pub struct HandleDistance {
    /// Characters between the offset and the start of the selection.
    pub start: usize,
    /// Characters between the offset and the end of the selection.
    pub end: usize,
}

/// The classification of a pending tap once it has left the tap dead zone:
/// the drag of the selection handle that lies within one character of the
/// offset where the gesture began, the end handle if both do and it is no
/// farther away, and a scrolling drag otherwise or when nothing is selected.
pub open spec fn drag_action(distance: Option<HandleDistance>) -> TouchAction {
    match distance {
        Some(distance) => {
            if distance.end <= distance.start && distance.end < 2 {
                TouchAction::DragSelectionEnd
            } else if distance.start < 2 {
                TouchAction::DragSelectionStart
            } else {
                TouchAction::Drag
            }
        },
        None => TouchAction::Drag,
    }
}

/// The classification after a motion event.
pub open spec fn motion_action(
    state: TouchState,
    beyond_tap_distance: bool,
    distance: Option<HandleDistance>,
) -> TouchAction {
    if state.action == TouchAction::Tap && beyond_tap_distance {
        drag_action(distance)
    } else {
        state.action
    }
}

impl TouchState {
    /// State before the first touch.
    pub fn new() -> (state: Self)
        ensures
            state == (TouchState { action: TouchAction::Tap, last_time: 0, start_offset: 0 }),
    {
        TouchState { action: TouchAction::Tap, last_time: 0, start_offset: 0 }
    }

    /// Update state from touch down event.
    ///
    /// `near_last_tap` says whether the touch lies within the tap distance of
    /// the previous touch-down; `offset` is the byte offset under the touch.
    pub fn down(
        &mut self,
        max_multi_tap: MillisDuration,
        time: u32,
        near_last_tap: bool,
        offset: usize,
    )
        ensures
            *final(self) == (TouchState {
                action: down_action(
                    old(self).action,
                    within_multi_tap(old(self).last_time, max_multi_tap, time),
                    near_last_tap,
                ),
                last_time: time,
                start_offset: offset,
            }),
    {
        let interval: u64 = max_multi_tap.as_millis();
        let last: u64 = self.last_time as u64;
        let in_time: bool = interval >= (time as u64) || last >= (time as u64) - interval;
        self.action = if in_time && near_last_tap {
            match self.action {
                TouchAction::Tap => TouchAction::DoubleTap,
                TouchAction::DoubleTap => TouchAction::TripleTap,
                _ => TouchAction::Tap,
            }
        } else {
            TouchAction::Tap
        };
        self.start_offset = offset;
        self.last_time = time;
    }

    /// Update state from touch motion event.
    ///
    /// `beyond_tap_distance` says whether the touch has moved farther from
    /// the touch-down than the tap distance, `distance` how far the offset
    /// where the gesture began lies from the two selection handles, if text
    /// is selected. A gesture that is no pending tap keeps its
    /// classification. Returns the point from which the distance moved is to
    /// be measured.
    pub fn motion(
        &mut self,
        beyond_tap_distance: bool,
        distance: Option<HandleDistance>,
    ) -> (origin: MotionOrigin)
        ensures
            *final(self) == (TouchState {
                action: motion_action(*old(self), beyond_tap_distance, distance),
                ..*old(self)
            }),
            origin == if old(self).action == TouchAction::Tap {
                MotionOrigin::TouchDown
            } else {
                MotionOrigin::LastMotion
            },
    {
        if self.action != TouchAction::Tap {
            return MotionOrigin::LastMotion;
        }
        if !beyond_tap_distance {
            return MotionOrigin::TouchDown;
        }
        self.action = match distance {
            Some(distance) => {
                if distance.end <= distance.start && distance.end < 2 {
                    TouchAction::DragSelectionEnd
                } else if distance.start < 2 {
                    TouchAction::DragSelectionStart
                } else {
                    TouchAction::Drag
                }
            },
            None => TouchAction::Drag,
        };
        MotionOrigin::TouchDown
    }
}

/// Tap cycle. After a gesture classified as a tap, three further taps that
/// each follow in time and place are a double tap, a triple tap and a tap
/// again.
pub proof fn lemma_tap_cycle(first: TouchAction)
    requires
        first == TouchAction::Tap,
    ensures
        down_action(first, true, true) == TouchAction::DoubleTap,
        down_action(down_action(first, true, true), true, true) == TouchAction::TripleTap,
        down_action(down_action(down_action(first, true, true), true, true), true, true)
            == TouchAction::Tap,
{
}

/// A touch-down that comes too late or too far away starts over with a tap,
/// whatever came before.
pub proof fn lemma_tap_reset(action: TouchAction, in_time: bool, near_last_tap: bool)
    requires
        !in_time || !near_last_tap,
    ensures
        down_action(action, in_time, near_last_tap) == TouchAction::Tap,
{
}

/// Once a gesture is a drag of any kind, motion never turns it back into a
/// tap.
pub proof fn lemma_drag_is_final(
    state: TouchState,
    beyond_tap_distance: bool,
    distance: Option<HandleDistance>,
)
    requires
        state.action == TouchAction::Drag || state.action == TouchAction::DragSelectionStart
            || state.action == TouchAction::DragSelectionEnd,
    ensures
        motion_action(state, beyond_tap_distance, distance) == state.action,
{
}

} // verus!
