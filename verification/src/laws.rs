//! The engine's behavioural laws, stated and proved once over the spec
//! functions that the executable functions are verified against.

use vstd::prelude::*;

use crate::engine::TickEvent;
use crate::engine::spec_apply_event;
use crate::engine::spec_drain;
use crate::engine::spec_suppressed;
use crate::engine::spec_toggle;
use crate::events::Button;
use crate::events::KeyPhase;
use crate::events::MouseBtn;
use crate::events::OverlayEvent;
use crate::events::SinkEvent;
use crate::state::AppState;

verus! {

/// In system mode, a press of a mouse-mapped button followed by its release
/// sends exactly one press and one release to the sink, in that order, and
/// leaves the activation state untouched.
pub proof fn lemma_click_round_trip(
    s: AppState,
    e1: TickEvent,
    e2: TickEvent,
    foreground: isize,
    own_window: isize,
    now_ms: u64,
)
    requires
        s.active,
        !s.osk_open,
        e1.button == Button::South || e1.button == Button::East,
        e2.button == e1.button,
        e1.phase == KeyPhase::Down,
        e2.phase == KeyPhase::Up,
    ensures
        ({
            let d = spec_drain(s, seq![e1, e2], foreground, own_window, now_ms);
            let mb = if e1.button == Button::South {
                MouseBtn::Left
            } else {
                MouseBtn::Right
            };
            &&& d.0 == s
            &&& d.1 =~= seq![
                SinkEvent::MouseButton { button: mb, phase: KeyPhase::Down },
                SinkEvent::MouseButton { button: mb, phase: KeyPhase::Up },
            ]
            &&& d.2 =~= Seq::<OverlayEvent>::empty()
        }),
{
    reveal_with_fuel(spec_drain, 3);
    let evs = seq![e1, e2];
    assert(evs[0] == e1);
    assert(evs.drop_first() =~= seq![e2]);
    assert(evs.drop_first()[0] == e2);
    assert(evs.drop_first().drop_first() =~= Seq::<TickEvent>::empty());
}

/// In overlay mode, the same press/release pair sends nothing to the sink:
/// mouse-mapped buttons act on the overlay alone while it is open.
pub proof fn lemma_click_silent_in_overlay(
    s: AppState,
    e1: TickEvent,
    e2: TickEvent,
    foreground: isize,
    own_window: isize,
    now_ms: u64,
)
    requires
        s.active,
        s.osk_open,
        e1.button == Button::South || e1.button == Button::East,
        e2.button == e1.button,
        e1.phase == KeyPhase::Down,
        e2.phase == KeyPhase::Up,
    ensures
        spec_drain(s, seq![e1, e2], foreground, own_window, now_ms).1 =~= Seq::<
            SinkEvent,
        >::empty(),
{
    reveal_with_fuel(spec_drain, 3);
    let evs = seq![e1, e2];
    assert(evs[0] == e1);
    assert(evs.drop_first() =~= seq![e2]);
    assert(evs.drop_first()[0] == e2);
    assert(evs.drop_first().drop_first() =~= Seq::<TickEvent>::empty());
}

/// A suppressed event — a press of either toggle button while both are held
/// on its controller — does nothing at all: no state change, no output to
/// either side. The combo gesture never leaks into the mapped actions.
pub proof fn lemma_suppressed_event_does_nothing(
    s: AppState,
    e: TickEvent,
    foreground: isize,
    own_window: isize,
    now_ms: u64,
)
    requires
        spec_suppressed(e),
    ensures
        spec_apply_event(s, e, foreground, own_window, now_ms).0 == s,
        spec_apply_event(s, e, foreground, own_window, now_ms).1 =~= Seq::<SinkEvent>::empty(),
        spec_apply_event(s, e, foreground, own_window, now_ms).2 =~= Seq::<OverlayEvent>::empty(),
{
}

/// The activation state after the combo has been held, without a release,
/// for `n` consecutive ticks.
pub open spec fn spec_hold_combo(
    s: AppState,
    foreground: isize,
    own_window: isize,
    now_ms: u64,
    n: nat,
) -> AppState
    decreases n,
{
    if n == 0 {
        s
    } else {
        spec_toggle(
            spec_hold_combo(s, foreground, own_window, now_ms, (n - 1) as nat),
            true,
            foreground,
            own_window,
            now_ms,
        ).0
    }
}

/// Toggle idempotence, first half: however many consecutive ticks the combo
/// is held, the engaged state flips exactly once, and the guard stays
/// latched throughout.
pub proof fn lemma_one_flip_while_held(
    s: AppState,
    foreground: isize,
    own_window: isize,
    now_ms: u64,
    n: nat,
)
    requires
        !s.toggle_guard,
        n >= 1,
    ensures
        spec_hold_combo(s, foreground, own_window, now_ms, n).active == !s.active,
        spec_hold_combo(s, foreground, own_window, now_ms, n).toggle_guard,
    decreases n,
{
    if n == 1 {
    } else {
        lemma_one_flip_while_held(s, foreground, own_window, now_ms, (n - 1) as nat);
    }
}

/// Toggle idempotence, second half: a tick without the combo re-arms the
/// guard and changes nothing else, so the next press flips the engaged state
/// back to where it started.
pub proof fn lemma_release_then_press_flips_again(
    s: AppState,
    foreground: isize,
    own_window: isize,
    now_ms: u64,
    n: nat,
)
    requires
        !s.toggle_guard,
        n >= 1,
    ensures
        ({
            let held = spec_hold_combo(s, foreground, own_window, now_ms, n);
            let released = spec_toggle(held, false, foreground, own_window, now_ms).0;
            let pressed = spec_toggle(released, true, foreground, own_window, now_ms).0;
            &&& !released.toggle_guard
            &&& released.active == !s.active
            &&& pressed.active == s.active
        }),
{
    lemma_one_flip_while_held(s, foreground, own_window, now_ms, n);
}

/// Deactivating always forces the overlay closed and emits the close
/// visibility notification, even if the overlay was not open.
pub proof fn lemma_deactivation_closes_overlay(
    s: AppState,
    foreground: isize,
    own_window: isize,
    now_ms: u64,
)
    requires
        s.active,
        !s.toggle_guard,
    ensures
        ({
            let t = spec_toggle(s, true, foreground, own_window, now_ms);
            &&& !t.0.active
            &&& !t.0.osk_open
            &&& t.1.contains(OverlayEvent::VisibilityChanged { visible: false })
        }),
{
    let t = spec_toggle(s, true, foreground, own_window, now_ms);
    assert(t.1[1] == (OverlayEvent::VisibilityChanged { visible: false }));
}

} // verus!
