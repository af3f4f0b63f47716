//! The polling engine's per-tick decision core.
//!
//! A host thread drains the controller backend once per tick and hands the
//! engine plain values: the discrete events in arrival order (each with a
//! snapshot of its controller's two toggle buttons), the held state of the
//! toggle buttons on every connected controller, the primary controller's
//! stick readings, the two window handles the focus rule needs, and the
//! clock. The engine decides everything — suppression, per-event mapping,
//! the debounced combo toggle, and which continuous mapper runs — and
//! returns the synthetic input and overlay notifications the host owes for
//! this tick.

use vstd::prelude::*;

use crate::events::Button;
use crate::events::KeyPhase;
use crate::events::OverlayEvent;
use crate::events::SinkEvent;
use crate::motion::valid_axis;
use crate::osk::OskAction;
use crate::osk::OskState;
use crate::osk::classify_x;
use crate::osk::classify_y;
use crate::osk::handle_osk_input;
use crate::osk::spec_axis_edge_events;
use crate::osk::spec_osk_action;
use crate::osk::spec_osk_after;
use crate::osk::update_osk_stick;
use crate::state::AppState;
use crate::state::spec_activate;
use crate::state::spec_close_osk;
use crate::state::spec_deactivate;
use crate::state::spec_open_osk;
use crate::state::activate;
use crate::state::close_osk;
use crate::state::deactivate;
use crate::state::open_osk;
use crate::system::MouseState;
use crate::system::SystemAction;
use crate::system::handle_system_input;
use crate::system::spec_mouse_after;
use crate::system::spec_pointer_events;
use crate::system::spec_scroll_events;
use crate::system::spec_system_action;
use crate::system::update_mouse;

verus! {

/// One discrete controller event as the host drained it, with a snapshot of
/// the two toggle buttons on the event's own controller at that moment.
#[derive(Clone, Copy, Debug, PartialEq, Eq, Structural)]
pub struct TickEvent {
    pub button: Button,
    pub phase: KeyPhase,
    /// The overlay-toggle button was held on this controller when the event
    /// was drained.
    pub start_held: bool,
    /// The combo's second button was held on this controller.
    pub select_held: bool,
}

/// The held state of the two toggle buttons on one connected controller.
#[derive(Clone, Copy, Debug, PartialEq, Eq, Structural)]
pub struct ComboHold {
    pub start_held: bool,
    pub select_held: bool,
}

/// The primary controller's stick readings for one tick, in thousandths of
/// full deflection.
#[derive(Clone, Copy, Debug, PartialEq, Eq, Structural)]
pub struct StickSample {
    pub lx: i32,
    pub ly: i32,
    pub rx: i32,
    pub ry: i32,
}

impl StickSample {
    /// All four axes are within one unit of deflection.
    pub open spec fn wf(self) -> bool {
        &&& valid_axis(self.lx as int)
        &&& valid_axis(self.ly as int)
        &&& valid_axis(self.rx as int)
        &&& valid_axis(self.ry as int)
    }
}

/// Everything one tick owes the outside world: synthetic input for the OS
/// sink and notifications for the overlay front end, each in emission order.
#[derive(Debug)]
pub struct TickOutput {
    pub sink: Vec<SinkEvent>,
    pub overlay: Vec<OverlayEvent>,
}

/// A press of either toggle button while both are held on that controller is
/// reserved for the toggle gesture and never forwarded to a mapper.
pub open spec fn spec_suppressed(e: TickEvent) -> bool {
    &&& e.phase == KeyPhase::Down
    &&& (e.button == Button::Start || e.button == Button::Select)
    &&& e.start_held
    &&& e.select_held
}

/// The combo is pressed when any single controller holds both toggle
/// buttons at once.
pub open spec fn spec_combo_any(holds: Seq<ComboHold>) -> bool {
    exists|i: int| 0 <= i < holds.len() && holds[i].start_held && holds[i].select_held
}

/// Whether any connected controller holds the activation combo.
pub fn combo_any(holds: &Vec<ComboHold>) -> (r: bool)
    ensures
        r == spec_combo_any(holds@),
{
    let mut i: usize = 0;
    while i < holds.len()
        invariant
            0 <= i <= holds.len(),
            forall|j: int| 0 <= j < i ==> !(holds@[j].start_held && holds@[j].select_held),
        decreases holds.len() - i,
    {
        if holds[i].start_held && holds[i].select_held {
            return true;
        }
        i = i + 1;
    }
    false
}

/// The mode-appropriate reading of one discrete button event.
#[derive(Clone, Copy, Debug, PartialEq, Eq, Structural)]
pub enum MappedAction {
    /// System-control mode is in charge.
    System(SystemAction),
    /// Overlay-navigation mode is in charge.
    Osk(OskAction),
    /// Virtualization is inactive: the event is ignored.
    Idle,
}

/// Which mapper reads a discrete event, given the activation flags: none
/// while inactive, the overlay mapper while the overlay is open, the system
/// mapper otherwise.
pub open spec fn spec_handle_input(
    btn: Button,
    phase: KeyPhase,
    active: bool,
    osk_open: bool,
    now_ms: u64,
) -> MappedAction {
    if !active {
        MappedAction::Idle
    } else if osk_open {
        MappedAction::Osk(spec_osk_action(btn, phase, now_ms))
    } else {
        MappedAction::System(spec_system_action(btn, phase))
    }
}

/// Route one discrete button event to the mode-appropriate mapper.
pub fn handle_input(btn: Button, phase: KeyPhase, active: bool, osk_open: bool, now_ms: u64) -> (a:
    MappedAction)
    ensures
        a == spec_handle_input(btn, phase, active, osk_open, now_ms),
{
    if !active {
        MappedAction::Idle
    } else if osk_open {
        MappedAction::Osk(handle_osk_input(btn, phase, now_ms))
    } else {
        MappedAction::System(handle_system_input(btn, phase))
    }
}

/// One step of the event-drain state machine: how one discrete event changes
/// the activation state and what it emits. A suppressed event does nothing;
/// an event while inactive does nothing; otherwise the mode-appropriate
/// button table decides, and its open/close-overlay requests are applied to
/// the state on the spot, so later events in the same drain see the new mode.
pub open spec fn spec_apply_event(
    s: AppState,
    e: TickEvent,
    foreground: isize,
    own_window: isize,
    now_ms: u64,
) -> (AppState, Seq<SinkEvent>, Seq<OverlayEvent>) {
    if spec_suppressed(e) || !s.active {
        (s, Seq::empty(), Seq::empty())
    } else if s.osk_open {
        match spec_osk_action(e.button, e.phase, now_ms) {
            OskAction::CloseOverlay => (
                spec_close_osk(s),
                Seq::empty(),
                seq![OverlayEvent::VisibilityChanged { visible: false }],
            ),
            OskAction::Emit(ev) => (s, Seq::empty(), seq![ev]),
            OskAction::Idle => (s, Seq::empty(), Seq::empty()),
        }
    } else {
        match spec_system_action(e.button, e.phase) {
            SystemAction::Sink(ev) => (s, seq![ev], Seq::empty()),
            SystemAction::OpenOverlay => (
                spec_open_osk(s, foreground, own_window),
                Seq::empty(),
                seq![OverlayEvent::VisibilityChanged { visible: true }],
            ),
            SystemAction::Idle => (s, Seq::empty(), Seq::empty()),
        }
    }
}

/// Apply one discrete event, appending what it emits to the two output
/// accumulators.
pub fn apply_event(
    state: &mut AppState,
    e: &TickEvent,
    foreground: isize,
    own_window: isize,
    now_ms: u64,
    sink: &mut Vec<SinkEvent>,
    overlay: &mut Vec<OverlayEvent>,
)
    requires
        old(state).wf(),
    ensures
        final(state).wf(),
        *final(state) == spec_apply_event(*old(state), *e, foreground, own_window, now_ms).0,
        final(sink)@ == old(sink)@ + spec_apply_event(
            *old(state),
            *e,
            foreground,
            own_window,
            now_ms,
        ).1,
        final(overlay)@ == old(overlay)@ + spec_apply_event(
            *old(state),
            *e,
            foreground,
            own_window,
            now_ms,
        ).2,
{
    let ghost s0 = *state;
    let suppressed = e.phase == KeyPhase::Down && (e.button == Button::Start || e.button
        == Button::Select) && e.start_held && e.select_held;
    if suppressed || !state.active {
        proof {
            assert(sink@ =~= old(sink)@ + spec_apply_event(
                s0,
                *e,
                foreground,
                own_window,
                now_ms,
            ).1);
            assert(overlay@ =~= old(overlay)@ + spec_apply_event(
                s0,
                *e,
                foreground,
                own_window,
                now_ms,
            ).2);
        }
        return ;
    }
    if state.osk_open {
        match handle_osk_input(e.button, e.phase, now_ms) {
            OskAction::CloseOverlay => {
                let ev = close_osk(state);
                overlay.push(ev);
            },
            OskAction::Emit(ev) => {
                overlay.push(ev);
            },
            OskAction::Idle => {},
        }
    } else {
        match handle_system_input(e.button, e.phase) {
            SystemAction::Sink(ev) => {
                sink.push(ev);
            },
            SystemAction::OpenOverlay => {
                let opened = open_osk(state, foreground, own_window);
                if let Some(ev) = opened {
                    overlay.push(ev);
                }
            },
            SystemAction::Idle => {},
        }
    }
    proof {
        assert(sink@ =~= old(sink)@ + spec_apply_event(
            s0,
            *e,
            foreground,
            own_window,
            now_ms,
        ).1);
        assert(overlay@ =~= old(overlay)@ + spec_apply_event(
            s0,
            *e,
            foreground,
            own_window,
            now_ms,
        ).2);
    }
}

/// The whole event drain: events applied one at a time in arrival order,
/// each seeing the state the previous one left.
pub open spec fn spec_drain(
    s: AppState,
    events: Seq<TickEvent>,
    foreground: isize,
    own_window: isize,
    now_ms: u64,
) -> (AppState, Seq<SinkEvent>, Seq<OverlayEvent>)
    decreases events.len(),
{
    if events.len() == 0 {
        (s, Seq::empty(), Seq::empty())
    } else {
        let head = spec_apply_event(s, events[0], foreground, own_window, now_ms);
        let rest = spec_drain(head.0, events.drop_first(), foreground, own_window, now_ms);
        (rest.0, head.1 + rest.1, head.2 + rest.2)
    }
}

/// Draining one more event continues from where the previous drain left the
/// state.
#[verifier::rlimit(50)]
pub proof fn lemma_drain_snoc(
    s: AppState,
    events: Seq<TickEvent>,
    e: TickEvent,
    foreground: isize,
    own_window: isize,
    now_ms: u64,
)
    ensures
        ({
            let d = spec_drain(s, events, foreground, own_window, now_ms);
            let h = spec_apply_event(d.0, e, foreground, own_window, now_ms);
            spec_drain(s, events.push(e), foreground, own_window, now_ms) == (
                h.0,
                d.1 + h.1,
                d.2 + h.2,
            )
        }),
    decreases events.len(),
{
    reveal_with_fuel(spec_drain, 2);
    let d = spec_drain(s, events, foreground, own_window, now_ms);
    let h = spec_apply_event(d.0, e, foreground, own_window, now_ms);
    if events.len() == 0 {
        assert(events.push(e)[0] == e);
        assert(events.push(e).drop_first() =~= Seq::<TickEvent>::empty());
        assert(spec_drain(s, events.push(e), foreground, own_window, now_ms).1 =~= d.1 + h.1);
        assert(spec_drain(s, events.push(e), foreground, own_window, now_ms).2 =~= d.2 + h.2);
    } else {
        let head = spec_apply_event(s, events[0], foreground, own_window, now_ms);
        assert(events.push(e)[0] == events[0]);
        assert(events.push(e).drop_first() =~= events.drop_first().push(e));
        lemma_drain_snoc(head.0, events.drop_first(), e, foreground, own_window, now_ms);
        assert(spec_drain(s, events.push(e), foreground, own_window, now_ms).1 =~= d.1 + h.1);
        assert(spec_drain(s, events.push(e), foreground, own_window, now_ms).2 =~= d.2 + h.2);
    }
}

/// The debounced combo-toggle rule. While the combo is pressed and the guard
/// is down, the guard latches, the time is recorded, and the engaged state
/// flips — turning off forces the overlay closed, turning on opens it. While
/// the combo stays held the latched guard blocks any further change. When
/// the combo is released the guard re-arms, unconditionally.
pub open spec fn spec_toggle(
    s: AppState,
    combo_pressed: bool,
    foreground: isize,
    own_window: isize,
    now_ms: u64,
) -> (AppState, Seq<OverlayEvent>) {
    if combo_pressed {
        if !s.toggle_guard {
            let armed = AppState { toggle_guard: true, last_toggle_ms: Some(now_ms), ..s };
            if s.active {
                (
                    spec_deactivate(armed),
                    seq![
                        OverlayEvent::ActiveChanged { active: false },
                        OverlayEvent::VisibilityChanged { visible: false },
                    ],
                )
            } else {
                (
                    spec_activate(armed, foreground, own_window),
                    seq![
                        OverlayEvent::ActiveChanged { active: true },
                        OverlayEvent::VisibilityChanged { visible: true },
                    ],
                )
            }
        } else {
            (s, Seq::empty())
        }
    } else {
        (AppState { toggle_guard: false, ..s }, Seq::empty())
    }
}

/// Evaluate the combo-toggle rule for one tick and append what it emits.
pub fn toggle_step(
    state: &mut AppState,
    combo_pressed: bool,
    foreground: isize,
    own_window: isize,
    now_ms: u64,
    overlay: &mut Vec<OverlayEvent>,
)
    requires
        old(state).wf(),
    ensures
        final(state).wf(),
        *final(state) == spec_toggle(
            *old(state),
            combo_pressed,
            foreground,
            own_window,
            now_ms,
        ).0,
        final(overlay)@ == old(overlay)@ + spec_toggle(
            *old(state),
            combo_pressed,
            foreground,
            own_window,
            now_ms,
        ).1,
{
    let ghost s0 = *state;
    if combo_pressed {
        if !state.toggle_guard {
            state.toggle_guard = true;
            state.last_toggle_ms = Some(now_ms);
            if state.active {
                let mut evs = deactivate(state);
                overlay.append(&mut evs);
            } else {
                let mut evs = activate(state, foreground, own_window);
                overlay.append(&mut evs);
            }
        }
    } else {
        state.toggle_guard = false;
    }
    proof {
        assert(overlay@ =~= old(overlay)@ + spec_toggle(
            s0,
            combo_pressed,
            foreground,
            own_window,
            now_ms,
        ).1);
    }
}

/// Everything one tick does, as one function of its inputs: the event drain,
/// then the combo toggle, then — on the state those two left — exactly one
/// of the two continuous mappers, or neither while inactive.
pub open spec fn spec_tick(
    s: AppState,
    m: MouseState,
    o: OskState,
    events: Seq<TickEvent>,
    holds: Seq<ComboHold>,
    st: StickSample,
    foreground: isize,
    own_window: isize,
    now_ms: u64,
) -> (AppState, MouseState, OskState, Seq<SinkEvent>, Seq<OverlayEvent>) {
    let d = spec_drain(s, events, foreground, own_window, now_ms);
    let t = spec_toggle(d.0, spec_combo_any(holds), foreground, own_window, now_ms);
    if t.0.active && t.0.osk_open {
        let xev = spec_axis_edge_events(
            o.stick_active_x as int,
            classify_x(st.lx as int),
            true,
            now_ms,
        );
        let yev = spec_axis_edge_events(
            o.stick_active_y as int,
            classify_y(st.ly as int),
            false,
            now_ms,
        );
        (t.0, m, spec_osk_after(o, st.lx as int, st.ly as int), d.1, d.2 + t.1 + xev + yev)
    } else if t.0.active {
        let pe = spec_pointer_events(m, st.lx as int, st.ly as int);
        let se = spec_scroll_events(m, st.rx as int, st.ry as int);
        (t.0, spec_mouse_after(m, st.lx as int, st.ly as int, st.rx as int, st.ry as int), o, d.1
            + pe + se, d.2 + t.1)
    } else {
        (t.0, m, o, d.1, d.2 + t.1)
    }
}

/// One tick of the polling engine.
///
/// `events` are this tick's discrete events in arrival order; `holds` the
/// toggle-button state of every connected controller; `stick` the primary
/// controller's sticks; `foreground` and `own_window` the current OS
/// foreground window and this application's own window; `now_ms` the clock.
/// The three state objects advance exactly as [`spec_tick`] says, and the
/// returned events are owed to the sink and the overlay front end in order.
pub fn tick(
    state: &mut AppState,
    mouse: &mut MouseState,
    osk: &mut OskState,
    events: &Vec<TickEvent>,
    holds: &Vec<ComboHold>,
    stick: &StickSample,
    foreground: isize,
    own_window: isize,
    now_ms: u64,
) -> (out: TickOutput)
    requires
        old(state).wf(),
        old(mouse).wf(),
        old(osk).wf(),
        stick.wf(),
    ensures
        final(state).wf(),
        final(mouse).wf(),
        final(osk).wf(),
        ({
            let r = spec_tick(
                *old(state),
                *old(mouse),
                *old(osk),
                events@,
                holds@,
                *stick,
                foreground,
                own_window,
                now_ms,
            );
            &&& *final(state) == r.0
            &&& *final(mouse) == r.1
            &&& *final(osk) == r.2
            &&& out.sink@ == r.3
            &&& out.overlay@ == r.4
        }),
{
    let ghost s0 = *state;
    let ghost m0 = *mouse;
    let ghost o0 = *osk;
    let mut sink: Vec<SinkEvent> = Vec::new();
    let mut overlay: Vec<OverlayEvent> = Vec::new();

    let mut i: usize = 0;
    while i < events.len()
        invariant
            0 <= i <= events.len(),
            state.wf(),
            ({
                let d = spec_drain(
                    s0,
                    events@.subrange(0, i as int),
                    foreground,
                    own_window,
                    now_ms,
                );
                *state == d.0 && sink@ == d.1 && overlay@ == d.2
            }),
        decreases events.len() - i,
    {
        let ghost pre = events@.subrange(0, i as int);
        let e = events[i];
        apply_event(state, &e, foreground, own_window, now_ms, &mut sink, &mut overlay);
        proof {
            lemma_drain_snoc(s0, pre, events@[i as int], foreground, own_window, now_ms);
            assert(events@.subrange(0, i as int + 1) =~= pre.push(events@[i as int]));
        }
        i = i + 1;
    }
    proof {
        assert(events@.subrange(0, events@.len() as int) =~= events@);
    }

    let combo_pressed = combo_any(holds);
    toggle_step(state, combo_pressed, foreground, own_window, now_ms, &mut overlay);

    if state.active {
        if state.osk_open {
            let mut evs = update_osk_stick(osk, stick.lx, stick.ly, now_ms);
            overlay.append(&mut evs);
        } else {
            let mut evs = update_mouse(mouse, stick.lx, stick.ly, stick.rx, stick.ry);
            sink.append(&mut evs);
        }
    }

    let ghost r = spec_tick(
        s0,
        m0,
        o0,
        events@,
        holds@,
        *stick,
        foreground,
        own_window,
        now_ms,
    );
    proof {
        assert(sink@ =~= r.3);
        assert(overlay@ =~= r.4);
    }
    TickOutput { sink, overlay }
}

} // verus!
