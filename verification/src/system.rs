//! The system-control mapper: discrete buttons become synthetic clicks and
//! arrow keys, and the two sticks become relative pointer motion and scroll
//! ticks through the cubic curve with remainder carry.

use vstd::prelude::*;

use crate::events::ArrowDir;
use crate::events::Button;
use crate::events::KeyPhase;
use crate::events::MouseBtn;
use crate::events::ScrollAxis;
use crate::events::SinkEvent;
use crate::motion::ACCEL_SENS;
use crate::motion::BASE_SENS;
use crate::motion::SCROLL_ACCEL_SENS;
use crate::motion::SCROLL_BASE_SENS;
use crate::motion::axis_raw;
use crate::motion::compute_axis_raw;
use crate::motion::spec_axis_step;
use crate::motion::step_axis;
use crate::motion::valid_axis;

verus! {

/// What one discrete button event asks of the engine in system-control mode.
#[derive(Clone, Copy, Debug, PartialEq, Eq, Structural)]
pub enum SystemAction {
    /// Forward to the input sink as a synthetic mouse button or arrow key.
    Sink(SinkEvent),
    /// Open the on-screen-keyboard overlay.
    OpenOverlay,
    /// The button is not mapped in this mode.
    Idle,
}

/// The system-mode button table: the confirm button is the left mouse
/// button, the back button the right one, each edge forwarded one to one;
/// the directional pad is the four arrow keys; a press of the overlay-toggle
/// button opens the overlay.
pub open spec fn spec_system_action(btn: Button, phase: KeyPhase) -> SystemAction {
    match btn {
        Button::Start => if phase == KeyPhase::Down {
            SystemAction::OpenOverlay
        } else {
            SystemAction::Idle
        },
        Button::South => SystemAction::Sink(
            SinkEvent::MouseButton { button: MouseBtn::Left, phase },
        ),
        Button::East => SystemAction::Sink(
            SinkEvent::MouseButton { button: MouseBtn::Right, phase },
        ),
        Button::DPadUp => SystemAction::Sink(SinkEvent::ArrowKey { dir: ArrowDir::Up, phase }),
        Button::DPadDown => SystemAction::Sink(SinkEvent::ArrowKey { dir: ArrowDir::Down, phase }),
        Button::DPadLeft => SystemAction::Sink(SinkEvent::ArrowKey { dir: ArrowDir::Left, phase }),
        Button::DPadRight => SystemAction::Sink(
            SinkEvent::ArrowKey { dir: ArrowDir::Right, phase },
        ),
        _ => SystemAction::Idle,
    }
}

/// Map one discrete button event in system-control mode.
pub fn handle_system_input(btn: Button, phase: KeyPhase) -> (a: SystemAction)
    ensures
        a == spec_system_action(btn, phase),
{
    match btn {
        Button::Start => if phase == KeyPhase::Down {
            SystemAction::OpenOverlay
        } else {
            SystemAction::Idle
        },
        Button::South => SystemAction::Sink(
            SinkEvent::MouseButton { button: MouseBtn::Left, phase },
        ),
        Button::East => SystemAction::Sink(
            SinkEvent::MouseButton { button: MouseBtn::Right, phase },
        ),
        Button::DPadUp => SystemAction::Sink(SinkEvent::ArrowKey { dir: ArrowDir::Up, phase }),
        Button::DPadDown => SystemAction::Sink(SinkEvent::ArrowKey { dir: ArrowDir::Down, phase }),
        Button::DPadLeft => SystemAction::Sink(SinkEvent::ArrowKey { dir: ArrowDir::Left, phase }),
        Button::DPadRight => SystemAction::Sink(
            SinkEvent::ArrowKey { dir: ArrowDir::Right, phase },
        ),
        _ => SystemAction::Idle,
    }
}

/// The sub-unit carry between ticks: fractional pixels of pointer motion and
/// fractional scroll ticks, in thousandths, each strictly inside one unit.
#[derive(Clone, Copy, Debug)]
pub struct MouseState {
    pub x_remainder: i32,
    pub y_remainder: i32,
    pub scroll_x_remainder: i32,
    pub scroll_y_remainder: i32,
}

impl MouseState {
    /// Every carried remainder is a proper fraction of one unit.
    pub open spec fn wf(self) -> bool {
        &&& -999 <= self.x_remainder <= 999
        &&& -999 <= self.y_remainder <= 999
        &&& -999 <= self.scroll_x_remainder <= 999
        &&& -999 <= self.scroll_y_remainder <= 999
    }
}

impl Default for MouseState {
    /// A fresh motion state carries nothing.
    fn default() -> (s: MouseState)
        ensures
            s == (MouseState {
                x_remainder: 0,
                y_remainder: 0,
                scroll_x_remainder: 0,
                scroll_y_remainder: 0,
            }),
            s.wf(),
    {
        MouseState { x_remainder: 0, y_remainder: 0, scroll_x_remainder: 0, scroll_y_remainder: 0 }
    }
}

/// Both axes of a stick rest inside the dead zone.
pub open spec fn in_dead_zone(x: int, y: int) -> bool {
    -100 <= x <= 100 && -100 <= y <= 100
}

/// The raw pointer amount for one tick of the primary stick's horizontal
/// axis.
pub open spec fn pointer_raw_x(lx: int) -> int {
    axis_raw(lx, BASE_SENS as int, ACCEL_SENS as int)
}

/// The raw pointer amount for the vertical axis; the stick reports up as
/// positive, the screen counts down as positive, so the sign flips.
pub open spec fn pointer_raw_y(ly: int) -> int {
    axis_raw(-ly, BASE_SENS as int, ACCEL_SENS as int)
}

/// The raw scroll amount for the secondary stick's horizontal axis.
pub open spec fn scroll_raw_x(rx: int) -> int {
    axis_raw(rx, SCROLL_BASE_SENS as int, SCROLL_ACCEL_SENS as int)
}

/// The raw scroll amount for the vertical axis, sign-inverted like pointer
/// motion.
pub open spec fn scroll_raw_y(ry: int) -> int {
    axis_raw(-ry, SCROLL_BASE_SENS as int, SCROLL_ACCEL_SENS as int)
}

/// The pointer remainders after one tick: reset inside the dead zone,
/// otherwise the sub-pixel rest of the accumulated amounts.
pub open spec fn spec_pointer_remainders(s: MouseState, lx: int, ly: int) -> (int, int) {
    if in_dead_zone(lx, ly) {
        (0int, 0int)
    } else {
        (
            spec_axis_step(s.x_remainder as int, pointer_raw_x(lx)).1,
            spec_axis_step(s.y_remainder as int, pointer_raw_y(ly)).1,
        )
    }
}

/// The scroll remainders after one tick.
pub open spec fn spec_scroll_remainders(s: MouseState, rx: int, ry: int) -> (int, int) {
    if in_dead_zone(rx, ry) {
        (0int, 0int)
    } else {
        (
            spec_axis_step(s.scroll_x_remainder as int, scroll_raw_x(rx)).1,
            spec_axis_step(s.scroll_y_remainder as int, scroll_raw_y(ry)).1,
        )
    }
}

/// The pointer events one tick emits: nothing inside the dead zone, one
/// relative move when at least one axis accumulated a whole pixel.
pub open spec fn spec_pointer_events(s: MouseState, lx: int, ly: int) -> Seq<SinkEvent> {
    if in_dead_zone(lx, ly) {
        Seq::empty()
    } else {
        let mx = spec_axis_step(s.x_remainder as int, pointer_raw_x(lx)).0;
        let my = spec_axis_step(s.y_remainder as int, pointer_raw_y(ly)).0;
        if mx != 0 || my != 0 {
            seq![SinkEvent::PointerMove { dx: mx as i32, dy: my as i32 }]
        } else {
            Seq::empty()
        }
    }
}

/// The scroll events one tick emits: horizontal then vertical, each only
/// when a whole tick accumulated.
pub open spec fn spec_scroll_events(s: MouseState, rx: int, ry: int) -> Seq<SinkEvent> {
    if in_dead_zone(rx, ry) {
        Seq::empty()
    } else {
        let sx = spec_axis_step(s.scroll_x_remainder as int, scroll_raw_x(rx)).0;
        let sy = spec_axis_step(s.scroll_y_remainder as int, scroll_raw_y(ry)).0;
        (if sx != 0 {
            seq![SinkEvent::Scroll { amount: sx as i32, axis: ScrollAxis::Horizontal }]
        } else {
            Seq::empty()
        }) + (if sy != 0 {
            seq![SinkEvent::Scroll { amount: sy as i32, axis: ScrollAxis::Vertical }]
        } else {
            Seq::empty()
        })
    }
}

/// The whole motion state after one tick.
pub open spec fn spec_mouse_after(s: MouseState, lx: int, ly: int, rx: int, ry: int) -> MouseState {
    MouseState {
        x_remainder: spec_pointer_remainders(s, lx, ly).0 as i32,
        y_remainder: spec_pointer_remainders(s, lx, ly).1 as i32,
        scroll_x_remainder: spec_scroll_remainders(s, rx, ry).0 as i32,
        scroll_y_remainder: spec_scroll_remainders(s, rx, ry).1 as i32,
    }
}

/// Inside the dead zone nothing moves: no motion event is emitted and both
/// pointer remainders reset to zero.
pub proof fn lemma_dead_zone_no_motion(s: MouseState, lx: int, ly: int)
    requires
        in_dead_zone(lx, ly),
    ensures
        spec_pointer_events(s, lx, ly) == Seq::<SinkEvent>::empty(),
        spec_pointer_remainders(s, lx, ly) == (0int, 0int),
{
}

/// One tick of continuous system-mode mapping: primary stick to pointer
/// motion, secondary stick to scroll ticks, each axis independently through
/// the cubic curve with remainder carry. Returns the sink events owed for
/// this tick, pointer motion first.
pub fn update_mouse(state: &mut MouseState, lx: i32, ly: i32, rx: i32, ry: i32) -> (evs: Vec<
    SinkEvent,
>)
    requires
        old(state).wf(),
        valid_axis(lx as int),
        valid_axis(ly as int),
        valid_axis(rx as int),
        valid_axis(ry as int),
    ensures
        final(state).wf(),
        (final(state).x_remainder as int, final(state).y_remainder as int)
            == spec_pointer_remainders(*old(state), lx as int, ly as int),
        (final(state).scroll_x_remainder as int, final(state).scroll_y_remainder as int)
            == spec_scroll_remainders(*old(state), rx as int, ry as int),
        *final(state) == spec_mouse_after(*old(state), lx as int, ly as int, rx as int, ry as int),
        evs@ == spec_pointer_events(*old(state), lx as int, ly as int) + spec_scroll_events(
            *old(state),
            rx as int,
            ry as int,
        ),
{
    let ghost s0 = *state;
    let mut evs: Vec<SinkEvent> = Vec::new();

    if lx > 100 || lx < -100 || ly > 100 || ly < -100 {
        let raw_x = compute_axis_raw(lx, BASE_SENS, ACCEL_SENS);
        let raw_y = compute_axis_raw(-ly, BASE_SENS, ACCEL_SENS);
        let (move_x, rem_x) = step_axis(raw_x, state.x_remainder);
        let (move_y, rem_y) = step_axis(raw_y, state.y_remainder);
        state.x_remainder = rem_x;
        state.y_remainder = rem_y;
        if move_x != 0 || move_y != 0 {
            evs.push(SinkEvent::PointerMove { dx: move_x, dy: move_y });
        }
    } else {
        state.x_remainder = 0;
        state.y_remainder = 0;
    }
    proof {
        assert(evs@ =~= spec_pointer_events(s0, lx as int, ly as int));
    }

    if rx > 100 || rx < -100 || ry > 100 || ry < -100 {
        let raw_sx = compute_axis_raw(rx, SCROLL_BASE_SENS, SCROLL_ACCEL_SENS);
        let raw_sy = compute_axis_raw(-ry, SCROLL_BASE_SENS, SCROLL_ACCEL_SENS);
        let (scroll_x, rem_sx) = step_axis(raw_sx, state.scroll_x_remainder);
        let (scroll_y, rem_sy) = step_axis(raw_sy, state.scroll_y_remainder);
        state.scroll_x_remainder = rem_sx;
        state.scroll_y_remainder = rem_sy;
        if scroll_x != 0 {
            evs.push(SinkEvent::Scroll { amount: scroll_x, axis: ScrollAxis::Horizontal });
        }
        if scroll_y != 0 {
            evs.push(SinkEvent::Scroll { amount: scroll_y, axis: ScrollAxis::Vertical });
        }
    } else {
        state.scroll_x_remainder = 0;
        state.scroll_y_remainder = 0;
    }
    proof {
        assert(evs@ =~= spec_pointer_events(s0, lx as int, ly as int) + spec_scroll_events(
            s0,
            rx as int,
            ry as int,
        ));
    }

    evs
}

} // verus!
