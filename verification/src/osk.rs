//! The overlay-navigation mapper: while the on-screen keyboard is open,
//! discrete buttons become select/shift/close events and the primary stick
//! becomes edge-triggered directional traversal.
//!
//! Overlay focus moves cell to cell, so the stick must behave like a
//! direction pad: each axis is classified into {-1, 0, 1} against a symmetric
//! threshold, and events fire only when the classification changes — a "move
//! start" on entering a direction, a "move stop" on leaving it — never while
//! it merely holds, which would flood the front end at the polling rate.

use vstd::prelude::*;

use crate::events::Button;
use crate::events::KeyPhase;
use crate::events::OverlayEvent;
use crate::motion::valid_axis;

verus! {

/// Stick deflection beyond this (0.5 of full deflection) counts as a held
/// direction in overlay mode.
pub const OSK_THRESHOLD: i32 = 500;

/// What one discrete button event asks of the engine in overlay mode.
#[derive(Clone, Copy, Debug, PartialEq, Eq, Structural)]
pub enum OskAction {
    /// Close the overlay (and notify the front end).
    CloseOverlay,
    /// Send this navigation event to the overlay front end.
    Emit(OverlayEvent),
    /// The button is not mapped in this mode.
    Idle,
}

/// The overlay-mode button table: the toggle button's press and the back
/// button's release both close the overlay; the shift button's press cycles
/// the key layer; the confirm button reports both edges with a timestamp so
/// the front end can tell a tap from a hold; the directional pad emits
/// one-shot unit moves on both edges.
pub open spec fn spec_osk_action(btn: Button, phase: KeyPhase, now_ms: u64) -> OskAction {
    match btn {
        Button::Start => if phase == KeyPhase::Down {
            OskAction::CloseOverlay
        } else {
            OskAction::Idle
        },
        Button::Select => if phase == KeyPhase::Down {
            OskAction::Emit(OverlayEvent::NavShift)
        } else {
            OskAction::Idle
        },
        Button::East => if phase == KeyPhase::Up {
            OskAction::CloseOverlay
        } else {
            OskAction::Idle
        },
        Button::South => OskAction::Emit(OverlayEvent::NavSelect { phase, ts_ms: now_ms }),
        Button::DPadUp => OskAction::Emit(
            OverlayEvent::NavMove { phase, dx: 0, dy: -1i32, ts_ms: now_ms },
        ),
        Button::DPadDown => OskAction::Emit(
            OverlayEvent::NavMove { phase, dx: 0, dy: 1, ts_ms: now_ms },
        ),
        Button::DPadLeft => OskAction::Emit(
            OverlayEvent::NavMove { phase, dx: -1i32, dy: 0, ts_ms: now_ms },
        ),
        Button::DPadRight => OskAction::Emit(
            OverlayEvent::NavMove { phase, dx: 1, dy: 0, ts_ms: now_ms },
        ),
        _ => OskAction::Idle,
    }
}

/// Map one discrete button event in overlay mode. `now_ms` is the engine
/// clock reading stamped onto select and move events.
pub fn handle_osk_input(btn: Button, phase: KeyPhase, now_ms: u64) -> (a: OskAction)
    ensures
        a == spec_osk_action(btn, phase, now_ms),
{
    match btn {
        Button::Start => if phase == KeyPhase::Down {
            OskAction::CloseOverlay
        } else {
            OskAction::Idle
        },
        Button::Select => if phase == KeyPhase::Down {
            OskAction::Emit(OverlayEvent::NavShift)
        } else {
            OskAction::Idle
        },
        Button::East => if phase == KeyPhase::Up {
            OskAction::CloseOverlay
        } else {
            OskAction::Idle
        },
        Button::South => OskAction::Emit(OverlayEvent::NavSelect { phase, ts_ms: now_ms }),
        Button::DPadUp => OskAction::Emit(
            OverlayEvent::NavMove { phase, dx: 0, dy: -1, ts_ms: now_ms },
        ),
        Button::DPadDown => OskAction::Emit(
            OverlayEvent::NavMove { phase, dx: 0, dy: 1, ts_ms: now_ms },
        ),
        Button::DPadLeft => OskAction::Emit(
            OverlayEvent::NavMove { phase, dx: -1, dy: 0, ts_ms: now_ms },
        ),
        Button::DPadRight => OskAction::Emit(
            OverlayEvent::NavMove { phase, dx: 1, dy: 0, ts_ms: now_ms },
        ),
        _ => OskAction::Idle,
    }
}

/// Which discrete direction each stick axis currently holds, for edge
/// detection: a move-start fires once on entering a direction, a move-stop
/// once on leaving it.
#[derive(Clone, Copy, Debug)]
pub struct OskState {
    /// Held horizontal direction: -1, 0 or 1.
    pub stick_active_x: i32,
    /// Held vertical direction in overlay coordinates: -1 (up), 0 or 1.
    pub stick_active_y: i32,
}

impl OskState {
    /// Each held direction is one of the three classifications.
    pub open spec fn wf(self) -> bool {
        &&& (self.stick_active_x == -1 || self.stick_active_x == 0 || self.stick_active_x == 1)
        &&& (self.stick_active_y == -1 || self.stick_active_y == 0 || self.stick_active_y == 1)
    }
}

impl Default for OskState {
    /// A fresh stick state holds no direction.
    fn default() -> (s: OskState)
        ensures
            s == (OskState { stick_active_x: 0, stick_active_y: 0 }),
            s.wf(),
    {
        OskState { stick_active_x: 0, stick_active_y: 0 }
    }
}

/// Classify a horizontal axis reading against the threshold.
pub open spec fn classify_x(v: int) -> int {
    if v > 500 {
        1
    } else if v < -500 {
        -1
    } else {
        0
    }
}

/// Classify a vertical axis reading. The stick reports up as positive while
/// the overlay counts rows downward, so the sign flips.
pub open spec fn classify_y(v: int) -> int {
    if v > 500 {
        -1
    } else if v < -500 {
        1
    } else {
        0
    }
}

/// The events one axis owes for one tick: nothing while the classification
/// is unchanged; otherwise a move-stop for the direction being left (if any)
/// followed by a move-start for the direction being entered (if any).
pub open spec fn spec_axis_edge_events(
    old_dir: int,
    new_dir: int,
    horizontal: bool,
    now_ms: u64,
) -> Seq<OverlayEvent> {
    if new_dir == old_dir {
        Seq::empty()
    } else {
        (if old_dir != 0 {
            seq![
                if horizontal {
                    OverlayEvent::NavMove {
                        phase: KeyPhase::Up,
                        dx: old_dir as i32,
                        dy: 0,
                        ts_ms: now_ms,
                    }
                } else {
                    OverlayEvent::NavMove {
                        phase: KeyPhase::Up,
                        dx: 0,
                        dy: old_dir as i32,
                        ts_ms: now_ms,
                    }
                },
            ]
        } else {
            Seq::empty()
        }) + (if new_dir != 0 {
            seq![
                if horizontal {
                    OverlayEvent::NavMove {
                        phase: KeyPhase::Down,
                        dx: new_dir as i32,
                        dy: 0,
                        ts_ms: now_ms,
                    }
                } else {
                    OverlayEvent::NavMove {
                        phase: KeyPhase::Down,
                        dx: 0,
                        dy: new_dir as i32,
                        ts_ms: now_ms,
                    }
                },
            ]
        } else {
            Seq::empty()
        })
    }
}

/// The whole stick-direction state after one tick.
pub open spec fn spec_osk_after(s: OskState, x: int, y: int) -> OskState {
    OskState { stick_active_x: classify_x(x) as i32, stick_active_y: classify_y(y) as i32 }
}

/// A tick whose classifications both match the held state emits nothing:
/// edge triggering never floods the front end while the stick merely holds a
/// direction.
pub proof fn lemma_held_direction_is_silent(s: OskState, x: int, y: int, now_ms: u64)
    requires
        classify_x(x) == s.stick_active_x as int,
        classify_y(y) == s.stick_active_y as int,
    ensures
        spec_axis_edge_events(s.stick_active_x as int, classify_x(x), true, now_ms)
            == Seq::<OverlayEvent>::empty(),
        spec_axis_edge_events(s.stick_active_y as int, classify_y(y), false, now_ms)
            == Seq::<OverlayEvent>::empty(),
{
}

/// One tick of continuous overlay-mode mapping: classify each primary-stick
/// axis and emit edge events on classification changes, horizontal axis
/// first, each axis independently so a diagonal intent produces two
/// independent event pairs.
pub fn update_osk_stick(state: &mut OskState, x: i32, y: i32, now_ms: u64) -> (evs: Vec<
    OverlayEvent,
>)
    requires
        old(state).wf(),
        valid_axis(x as int),
        valid_axis(y as int),
    ensures
        final(state).wf(),
        final(state).stick_active_x as int == classify_x(x as int),
        final(state).stick_active_y as int == classify_y(y as int),
        *final(state) == spec_osk_after(*old(state), x as int, y as int),
        evs@ == spec_axis_edge_events(
            old(state).stick_active_x as int,
            classify_x(x as int),
            true,
            now_ms,
        ) + spec_axis_edge_events(
            old(state).stick_active_y as int,
            classify_y(y as int),
            false,
            now_ms,
        ),
{
    let ghost s0 = *state;
    let mut evs: Vec<OverlayEvent> = Vec::new();

    let new_x_dir: i32 = if x > OSK_THRESHOLD {
        1
    } else if x < -OSK_THRESHOLD {
        -1
    } else {
        0
    };
    if new_x_dir != state.stick_active_x {
        if state.stick_active_x != 0 {
            evs.push(
                OverlayEvent::NavMove {
                    phase: KeyPhase::Up,
                    dx: state.stick_active_x,
                    dy: 0,
                    ts_ms: now_ms,
                },
            );
        }
        if new_x_dir != 0 {
            evs.push(
                OverlayEvent::NavMove { phase: KeyPhase::Down, dx: new_x_dir, dy: 0, ts_ms: now_ms },
            );
        }
        state.stick_active_x = new_x_dir;
    }
    proof {
        assert(evs@ =~= spec_axis_edge_events(
            s0.stick_active_x as int,
            classify_x(x as int),
            true,
            now_ms,
        ));
    }

    let new_y_dir: i32 = if y > OSK_THRESHOLD {
        -1
    } else if y < -OSK_THRESHOLD {
        1
    } else {
        0
    };
    if new_y_dir != state.stick_active_y {
        if state.stick_active_y != 0 {
            evs.push(
                OverlayEvent::NavMove {
                    phase: KeyPhase::Up,
                    dx: 0,
                    dy: state.stick_active_y,
                    ts_ms: now_ms,
                },
            );
        }
        if new_y_dir != 0 {
            evs.push(
                OverlayEvent::NavMove { phase: KeyPhase::Down, dx: 0, dy: new_y_dir, ts_ms: now_ms },
            );
        }
        state.stick_active_y = new_y_dir;
    }
    proof {
        assert(evs@ =~= spec_axis_edge_events(
            s0.stick_active_x as int,
            classify_x(x as int),
            true,
            now_ms,
        ) + spec_axis_edge_events(
            s0.stick_active_y as int,
            classify_y(y as int),
            false,
            now_ms,
        ));
    }

    evs
}

} // verus!
