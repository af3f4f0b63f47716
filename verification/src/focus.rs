//! The focus guardian: keeps synthetic input landing on the application the
//! user was working in, even though this application's own window must be
//! visible and topmost to show the overlay.
//!
//! Before injecting input, the host queries the OS for the current
//! foreground window and asks this rule what to do. If our own window has
//! stolen focus, the remembered target must be restored first; if the user
//! deliberately focused some other window, that window becomes the new
//! target rather than being fought.

use vstd::prelude::*;

use crate::state::AppState;

verus! {

/// What the host must do before injecting synthetic input.
#[derive(Clone, Copy, Debug, PartialEq, Eq, Structural)]
pub enum FocusAction {
    /// Our own window holds focus: request a foreground switch to this
    /// target and yield a few milliseconds for the switch to settle before
    /// injecting.
    RestoreTarget(isize),
    /// The user focused another window on purpose: it was recorded as the
    /// new target, and input goes to it as the OS default.
    AdoptForeground(isize),
    /// Focus is already where it should be.
    NoAction,
}

/// The focus rule. `current_fg` is the window holding OS focus right now,
/// `own_window` this application's own window, `target` the remembered
/// focus target (0 for none).
pub open spec fn spec_focus_decision(
    current_fg: isize,
    own_window: isize,
    target: isize,
) -> FocusAction {
    if current_fg == own_window {
        if target != 0 {
            FocusAction::RestoreTarget(target)
        } else {
            FocusAction::NoAction
        }
    } else if current_fg != target {
        FocusAction::AdoptForeground(current_fg)
    } else {
        FocusAction::NoAction
    }
}

/// Decide the focus action for one injection and record an adopted
/// foreground window as the new target. Every other field of the state is
/// untouched.
pub fn guard_focus(state: &mut AppState, current_fg: isize, own_window: isize) -> (action:
    FocusAction)
    ensures
        action == spec_focus_decision(current_fg, own_window, old(state).target_window),
        *final(state) == (AppState {
            target_window: match action {
                FocusAction::AdoptForeground(w) => w,
                _ => old(state).target_window,
            },
            ..*old(state)
        }),
        old(state).wf() ==> final(state).wf(),
        current_fg == own_window && old(state).target_window != 0 ==> action
            == FocusAction::RestoreTarget(old(state).target_window),
{
    if current_fg == own_window {
        if state.target_window != 0 {
            FocusAction::RestoreTarget(state.target_window)
        } else {
            FocusAction::NoAction
        }
    } else if current_fg != state.target_window {
        state.target_window = current_fg;
        FocusAction::AdoptForeground(current_fg)
    } else {
        FocusAction::NoAction
    }
}

} // verus!
