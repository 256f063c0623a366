//! Keyboard navigation between the interface's focus regions.
//!
//! The interface has three regions — the station list, the radio info box
//! and the recording queue — and arrow keys move focus between them; inside
//! the queue, up and down move the selection.  The decisions live here; the
//! interface applies them to its widget state.

use vstd::prelude::*;

verus! {

/// The region of the interface that holds keyboard focus.
#[derive(Clone, Copy, Debug, PartialEq, Eq, Structural)]
pub enum FocusRegion {
    MainArea,
    RadioInfo,
    Queue,
}

/// An arrow key.
#[derive(Clone, Copy, Debug, PartialEq, Eq, Structural)]
pub enum NavKey {
    Up,
    Down,
    Left,
    Right,
}

/// What one navigation key does: where focus moves (if it moves), and the
/// queue selection afterwards.
///
/// Entering the queue from the info box selects its first entry; leaving the
/// queue clears the selection; within the queue, up moves towards the front
/// and down away from it (the selection saturates, and the widget clamps it
/// to the entries on display).
pub open spec fn navigate(
    focus: FocusRegion,
    selection: Option<usize>,
    key: NavKey,
) -> (Option<FocusRegion>, Option<usize>) {
    match key {
        NavKey::Right => match focus {
            FocusRegion::MainArea => (Some(FocusRegion::RadioInfo), selection),
            _ => (None, selection),
        },
        NavKey::Left => match focus {
            FocusRegion::RadioInfo | FocusRegion::Queue => (Some(FocusRegion::MainArea), None),
            _ => (None, selection),
        },
        NavKey::Up => match focus {
            FocusRegion::Queue => match selection {
                Some(0) | None => (Some(FocusRegion::RadioInfo), None),
                Some(i) => (None, Some((i - 1) as usize)),
            },
            _ => (None, selection),
        },
        NavKey::Down => match focus {
            FocusRegion::RadioInfo => (Some(FocusRegion::Queue), Some(0usize)),
            FocusRegion::Queue => match selection {
                Some(i) => (
                    None,
                    Some(
                        if i == usize::MAX {
                            i
                        } else {
                            (i + 1) as usize
                        },
                    ),
                ),
                None => (None, Some(0usize)),
            },
            _ => (None, selection),
        },
    }
}

/// Decide what an arrow key does given the current focus and queue
/// selection.
pub fn handle_navigation(focus: FocusRegion, selection: Option<usize>, key: NavKey) -> (r: (
    Option<FocusRegion>,
    Option<usize>,
))
    ensures
        r == navigate(focus, selection, key),
{
    match key {
        NavKey::Right => match focus {
            FocusRegion::MainArea => (Some(FocusRegion::RadioInfo), selection),
            _ => (None, selection),
        },
        NavKey::Left => match focus {
            FocusRegion::RadioInfo | FocusRegion::Queue => (Some(FocusRegion::MainArea), None),
            _ => (None, selection),
        },
        NavKey::Up => match focus {
            FocusRegion::Queue => match selection {
                Some(0) | None => (Some(FocusRegion::RadioInfo), None),
                Some(i) => (None, Some(i - 1)),
            },
            _ => (None, selection),
        },
        NavKey::Down => match focus {
            FocusRegion::RadioInfo => (Some(FocusRegion::Queue), Some(0)),
            FocusRegion::Queue => match selection {
                Some(i) => (None, Some(if i == usize::MAX { i } else { i + 1 })),
                None => (None, Some(0)),
            },
            _ => (None, selection),
        },
    }
}

} // verus!
