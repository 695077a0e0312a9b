//! Per-event classification: the decision the interception callback makes
//! for each delivered hardware event.

use vstd::prelude::*;

verus! {

/// The kinds of hardware input event the interceptor distinguishes.
#[derive(Clone, Copy, Debug, PartialEq, Eq, Structural)]
pub enum EventType {
    PointerMoved,
    PrimaryButtonDown,
    PrimaryButtonUp,
    SecondaryButtonDown,
    SecondaryButtonUp,
    ScrollWheel,
}

/// Which way a workspace switch goes.
#[derive(Clone, Copy, Debug, PartialEq, Eq, Structural)]
pub enum Direction {
    Left,
    Right,
}

/// What the callback decided for one delivered event.
#[derive(Debug)]
pub struct CallbackResult<H> {
    /// `Some(handle)` returns the event unchanged so it keeps propagating;
    /// `None` suppresses it.
    pub deliver: Option<H>,
    /// The workspace switch to perform, if any.
    pub action: Option<Direction>,
    /// The button number to name in a diagnostic line, if any.
    pub report: Option<i64>,
}

/// An event is suppressed exactly when it is a secondary-button event.
pub open spec fn suppresses(ty: EventType) -> bool {
    ty == EventType::SecondaryButtonDown || ty == EventType::SecondaryButtonUp
}

/// The workspace switch an event triggers: a secondary-button-down event
/// with button 3 moves left, with button 4 moves right; nothing else
/// triggers one.
pub open spec fn action_for(ty: EventType, button: i64) -> Option<Direction> {
    if ty == EventType::SecondaryButtonDown {
        if button == 3 {
            Some(Direction::Left)
        } else if button == 4 {
            Some(Direction::Right)
        } else {
            None
        }
    } else {
        None
    }
}

/// Secondary-button-down events have their button number reported in a
/// diagnostic; no other event produces one.
pub open spec fn report_for(ty: EventType, button: i64) -> Option<i64> {
    if ty == EventType::SecondaryButtonDown {
        Some(button)
    } else {
        None
    }
}

/// Decide one delivered event. The handle stands for the OS-owned event
/// record: it is handed back untouched on pass-through and dropped on
/// suppression. `button` is the event's button-number field; it only
/// matters for secondary-button-down events.
pub fn event_callback<H>(ty: EventType, button: i64, handle: H) -> (r: CallbackResult<H>)
    ensures
        r.deliver == (if suppresses(ty) { None::<H> } else { Some(handle) }),
        r.action == action_for(ty, button),
        r.report == report_for(ty, button),
{
    match ty {
        EventType::SecondaryButtonDown => CallbackResult {
            deliver: None,
            action: if button == 3 {
                Some(Direction::Left)
            } else if button == 4 {
                Some(Direction::Right)
            } else {
                None
            },
            report: Some(button),
        },
        EventType::SecondaryButtonUp => CallbackResult { deliver: None, action: None, report: None },
        _ => CallbackResult { deliver: Some(handle), action: None, report: None },
    }
}

/// Deliveries are handled independently: every secondary-button-down event
/// carrying button 3 triggers the left switch, so two such events in
/// succession trigger it twice — nothing is de-duplicated or coalesced.
pub proof fn lemma_repeated_events_repeat_action(first: i64, second: i64)
    requires
        first == 3,
        second == 3,
    ensures
        action_for(EventType::SecondaryButtonDown, first) == Some(Direction::Left),
        action_for(EventType::SecondaryButtonDown, second) == Some(Direction::Left),
{
}

} // verus!
