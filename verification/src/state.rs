//! The shared activation state and the operations that mutate it.
//!
//! One instance of [`AppState`] exists for the process lifetime; the host
//! keeps it behind a lock and every entry point performs its check-and-update
//! through the functions here before calling out to the input sink or the
//! overlay front end. The state invariant is that the overlay can only be
//! open while virtualization is active.

use vstd::prelude::*;

use crate::events::OverlayEvent;

verus! {

/// The shared activation record.
///
/// `target_window` remembers the window that should hold OS input focus;
/// `0` means "none recorded". `last_toggle_ms` is diagnostic: the engine
/// clock reading of the most recent combo toggle, `0` until the first one.
#[derive(Clone, Copy, Debug)]
pub struct AppState {
    /// Whether input virtualization is engaged at all.
    pub active: bool,
    /// Whether the on-screen-keyboard overlay is open (overlay-navigation
    /// mode selected over system-control mode).
    pub osk_open: bool,
    /// True while the activation combo remains physically held, so a held
    /// combo cannot re-trigger the toggle on every poll tick.
    pub toggle_guard: bool,
    /// Clock reading at the most recent toggle, if any.
    pub last_toggle_ms: Option<u64>,
    /// The window that should hold OS input focus; `0` means none.
    pub target_window: isize,
}

impl AppState {
    /// The state invariant: overlay-navigation mode implies virtualization
    /// is engaged.
    pub open spec fn wf(self) -> bool {
        self.osk_open ==> self.active
    }
}

impl Default for AppState {
    /// The process starts inactive, overlay closed, combo released, with no
    /// toggle recorded and no target window.
    fn default() -> (s: AppState)
        ensures
            s == (AppState {
                active: false,
                osk_open: false,
                toggle_guard: false,
                last_toggle_ms: None,
                target_window: 0,
            }),
            s.wf(),
    {
        AppState {
            active: false,
            osk_open: false,
            toggle_guard: false,
            last_toggle_ms: None,
            target_window: 0,
        }
    }
}

/// The state after opening the overlay: a no-op while inactive; otherwise the
/// current foreground window is captured as the focus target — unless it is
/// this application's own window, which would only record a stale
/// self-reference — and the overlay is marked open.
pub open spec fn spec_open_osk(s: AppState, foreground: isize, own_window: isize) -> AppState {
    if !s.active {
        s
    } else if foreground != own_window {
        AppState { osk_open: true, target_window: foreground, ..s }
    } else {
        AppState { osk_open: true, ..s }
    }
}

/// The state after closing the overlay: `osk_open` cleared, all else kept.
pub open spec fn spec_close_osk(s: AppState) -> AppState {
    AppState { osk_open: false, ..s }
}

/// Open the overlay. `foreground` is the window currently holding OS focus
/// and `own_window` this application's own window, both as plain handles.
/// Returns the visibility notification owed to the overlay front end, or
/// `None` when nothing happened because virtualization is inactive.
pub fn open_osk(state: &mut AppState, foreground: isize, own_window: isize) -> (ev: Option<
    OverlayEvent,
>)
    ensures
        *final(state) == spec_open_osk(*old(state), foreground, own_window),
        ev == if old(state).active {
            Some(OverlayEvent::VisibilityChanged { visible: true })
        } else {
            None::<OverlayEvent>
        },
        old(state).wf() ==> final(state).wf(),
{
    if !state.active {
        return None;
    }
    if foreground != own_window {
        state.target_window = foreground;
    }
    state.osk_open = true;
    Some(OverlayEvent::VisibilityChanged { visible: true })
}

/// Close the overlay and notify the front end. The notification is emitted
/// unconditionally, even if the overlay was not open, so the front end never
/// misses a hide request.
pub fn close_osk(state: &mut AppState) -> (ev: OverlayEvent)
    ensures
        *final(state) == spec_close_osk(*old(state)),
        ev == (OverlayEvent::VisibilityChanged { visible: false }),
        final(state).wf(),
{
    state.osk_open = false;
    OverlayEvent::VisibilityChanged { visible: false }
}

/// The state after engaging virtualization, which also opens the overlay.
pub open spec fn spec_activate(s: AppState, foreground: isize, own_window: isize) -> AppState {
    spec_open_osk(AppState { active: true, ..s }, foreground, own_window)
}

/// The state after disengaging virtualization, which also closes the overlay.
pub open spec fn spec_deactivate(s: AppState) -> AppState {
    spec_close_osk(AppState { active: false, ..s })
}

/// Engage virtualization and open the overlay. Returns the notifications
/// owed to the front end, in emission order.
pub fn activate(state: &mut AppState, foreground: isize, own_window: isize) -> (evs: Vec<
    OverlayEvent,
>)
    ensures
        *final(state) == spec_activate(*old(state), foreground, own_window),
        evs@ == seq![
            OverlayEvent::ActiveChanged { active: true },
            OverlayEvent::VisibilityChanged { visible: true },
        ],
        final(state).wf(),
{
    state.active = true;
    let mut evs: Vec<OverlayEvent> = Vec::new();
    evs.push(OverlayEvent::ActiveChanged { active: true });
    let opened = open_osk(state, foreground, own_window);
    if let Some(ev) = opened {
        evs.push(ev);
    }
    proof {
        assert(evs@ =~= seq![
            OverlayEvent::ActiveChanged { active: true },
            OverlayEvent::VisibilityChanged { visible: true },
        ]);
    }
    evs
}

/// Disengage virtualization. This always forces the overlay closed and emits
/// the close-overlay visibility notification, even if the overlay was not
/// open.
pub fn deactivate(state: &mut AppState) -> (evs: Vec<OverlayEvent>)
    ensures
        *final(state) == spec_deactivate(*old(state)),
        evs@ == seq![
            OverlayEvent::ActiveChanged { active: false },
            OverlayEvent::VisibilityChanged { visible: false },
        ],
        final(state).wf(),
        !final(state).active,
        !final(state).osk_open,
{
    state.active = false;
    let mut evs: Vec<OverlayEvent> = Vec::new();
    evs.push(OverlayEvent::ActiveChanged { active: false });
    let ev = close_osk(state);
    evs.push(ev);
    proof {
        assert(evs@ =~= seq![
            OverlayEvent::ActiveChanged { active: false },
            OverlayEvent::VisibilityChanged { visible: false },
        ]);
    }
    evs
}

/// Flip the engaged/disengaged state from a host entry point (tray menu or
/// command). Deactivating goes through [`deactivate`], so the overlay is
/// forced closed with it; activating opens the overlay as the combo toggle
/// does.
pub fn toggle_active(state: &mut AppState, foreground: isize, own_window: isize) -> (evs: Vec<
    OverlayEvent,
>)
    ensures
        *final(state) == if old(state).active {
            spec_deactivate(*old(state))
        } else {
            spec_activate(*old(state), foreground, own_window)
        },
        evs@ == if old(state).active {
            seq![
                OverlayEvent::ActiveChanged { active: false },
                OverlayEvent::VisibilityChanged { visible: false },
            ]
        } else {
            seq![
                OverlayEvent::ActiveChanged { active: true },
                OverlayEvent::VisibilityChanged { visible: true },
            ]
        },
        final(state).wf(),
{
    if state.active {
        deactivate(state)
    } else {
        activate(state, foreground, own_window)
    }
}

} // verus!
