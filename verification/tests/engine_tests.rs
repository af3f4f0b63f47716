//! The per-tick engine: suppression, the debounced combo toggle, mode
//! routing, and the edge-triggered overlay stick.

use padvirt::AppState;
use padvirt::Button;
use padvirt::ComboHold;
use padvirt::KeyPhase;
use padvirt::MouseBtn;
use padvirt::MouseState;
use padvirt::OskState;
use padvirt::OverlayEvent;
use padvirt::SinkEvent;
use padvirt::StickSample;
use padvirt::TickEvent;
use padvirt::apply_event;
use padvirt::combo_any;
use padvirt::tick;
use padvirt::update_osk_stick;

const OWN: isize = 77;
const FG: isize = 42;
const NOW: u64 = 1000;

fn ev(button: Button, phase: KeyPhase) -> TickEvent {
    TickEvent { button, phase, start_held: false, select_held: false }
}

fn centered() -> StickSample {
    StickSample { lx: 0, ly: 0, rx: 0, ry: 0 }
}

fn run_tick(
    state: &mut AppState,
    mouse: &mut MouseState,
    osk: &mut OskState,
    events: Vec<TickEvent>,
    holds: Vec<ComboHold>,
    stick: StickSample,
) -> (Vec<SinkEvent>, Vec<OverlayEvent>) {
    let out = tick(state, mouse, osk, &events, &holds, &stick, FG, OWN, NOW);
    (out.sink, out.overlay)
}

#[test]
fn click_round_trip_in_system_mode() {
    let mut s = AppState::default();
    s.active = true;
    let mut mouse = MouseState::default();
    let mut osk = OskState::default();
    let (sink, overlay) = run_tick(
        &mut s,
        &mut mouse,
        &mut osk,
        vec![ev(Button::South, KeyPhase::Down), ev(Button::South, KeyPhase::Up)],
        vec![],
        centered(),
    );
    assert_eq!(
        sink,
        vec![
            SinkEvent::MouseButton { button: MouseBtn::Left, phase: KeyPhase::Down },
            SinkEvent::MouseButton { button: MouseBtn::Left, phase: KeyPhase::Up },
        ]
    );
    assert_eq!(overlay, vec![]);
}

#[test]
fn click_sends_nothing_to_sink_in_overlay_mode() {
    let mut s = AppState::default();
    s.active = true;
    s.osk_open = true;
    let mut mouse = MouseState::default();
    let mut osk = OskState::default();
    let (sink, overlay) = run_tick(
        &mut s,
        &mut mouse,
        &mut osk,
        vec![ev(Button::South, KeyPhase::Down), ev(Button::South, KeyPhase::Up)],
        vec![],
        centered(),
    );
    assert_eq!(sink, vec![]);
    // The confirm button reports both edges to the overlay instead.
    assert_eq!(
        overlay,
        vec![
            OverlayEvent::NavSelect { phase: KeyPhase::Down, ts_ms: NOW },
            OverlayEvent::NavSelect { phase: KeyPhase::Up, ts_ms: NOW },
        ]
    );
}

#[test]
fn right_button_maps_to_right_click() {
    let mut s = AppState::default();
    s.active = true;
    let mut mouse = MouseState::default();
    let mut osk = OskState::default();
    let (sink, _) = run_tick(
        &mut s,
        &mut mouse,
        &mut osk,
        vec![ev(Button::East, KeyPhase::Down)],
        vec![],
        centered(),
    );
    assert_eq!(
        sink,
        vec![SinkEvent::MouseButton { button: MouseBtn::Right, phase: KeyPhase::Down }]
    );
}

#[test]
fn events_are_ignored_while_inactive() {
    let mut s = AppState::default();
    let mut mouse = MouseState::default();
    let mut osk = OskState::default();
    let (sink, overlay) = run_tick(
        &mut s,
        &mut mouse,
        &mut osk,
        vec![ev(Button::South, KeyPhase::Down), ev(Button::DPadUp, KeyPhase::Down)],
        vec![],
        centered(),
    );
    assert_eq!(sink, vec![]);
    assert_eq!(overlay, vec![]);
}

#[test]
fn suppressed_press_is_never_forwarded() {
    // A press of a toggle button while both are held on its controller is
    // reserved for the combo: the overlay-open action bound to it must not
    // fire.
    let mut s = AppState::default();
    s.active = true;
    let mut sink = Vec::new();
    let mut overlay = Vec::new();
    let e = TickEvent {
        button: Button::Start,
        phase: KeyPhase::Down,
        start_held: true,
        select_held: true,
    };
    apply_event(&mut s, &e, FG, OWN, NOW, &mut sink, &mut overlay);
    assert!(!s.osk_open);
    assert_eq!(sink, vec![]);
    assert_eq!(overlay, vec![]);
}

#[test]
fn lone_start_press_opens_overlay() {
    let mut s = AppState::default();
    s.active = true;
    let mut sink = Vec::new();
    let mut overlay = Vec::new();
    let e = TickEvent {
        button: Button::Start,
        phase: KeyPhase::Down,
        start_held: true,
        select_held: false,
    };
    apply_event(&mut s, &e, FG, OWN, NOW, &mut sink, &mut overlay);
    assert!(s.osk_open);
    assert_eq!(s.target_window, FG);
    assert_eq!(sink, vec![]);
    assert_eq!(overlay, vec![OverlayEvent::VisibilityChanged { visible: true }]);
}

#[test]
fn combo_any_scans_all_controllers() {
    assert!(!combo_any(&vec![]));
    assert!(!combo_any(&vec![
        ComboHold { start_held: true, select_held: false },
        ComboHold { start_held: false, select_held: true },
    ]));
    assert!(combo_any(&vec![
        ComboHold { start_held: false, select_held: false },
        ComboHold { start_held: true, select_held: true },
    ]));
}

#[test]
fn held_combo_toggles_exactly_once() {
    let mut s = AppState::default();
    let mut mouse = MouseState::default();
    let mut osk = OskState::default();
    let both = vec![ComboHold { start_held: true, select_held: true }];

    let (_, overlay) = run_tick(&mut s, &mut mouse, &mut osk, vec![], both.clone(), centered());
    assert!(s.active);
    assert!(s.osk_open);
    assert!(s.toggle_guard);
    assert_eq!(s.last_toggle_ms, Some(NOW));
    assert_eq!(overlay[0], OverlayEvent::ActiveChanged { active: true });
    assert_eq!(overlay[1], OverlayEvent::VisibilityChanged { visible: true });

    // Holding the combo for more ticks changes nothing.
    for _ in 0..3 {
        let (_, overlay) = run_tick(&mut s, &mut mouse, &mut osk, vec![], both.clone(), centered());
        assert!(s.active);
        assert!(s.toggle_guard);
        assert!(!overlay.contains(&OverlayEvent::ActiveChanged { active: false }));
        assert!(!overlay.contains(&OverlayEvent::ActiveChanged { active: true }));
    }

    // Releasing re-arms the guard without toggling.
    let (_, _) = run_tick(&mut s, &mut mouse, &mut osk, vec![], vec![], centered());
    assert!(s.active);
    assert!(!s.toggle_guard);

    // Pressing again flips back off.
    let (_, overlay) = run_tick(&mut s, &mut mouse, &mut osk, vec![], both, centered());
    assert!(!s.active);
    assert_eq!(overlay[0], OverlayEvent::ActiveChanged { active: false });
}

#[test]
fn deactivation_closes_overlay_and_notifies_even_if_closed() {
    let mut s = AppState::default();
    s.active = true;
    s.osk_open = false;
    let mut mouse = MouseState::default();
    let mut osk = OskState::default();
    let both = vec![ComboHold { start_held: true, select_held: true }];
    let (_, overlay) = run_tick(&mut s, &mut mouse, &mut osk, vec![], both, centered());
    assert!(!s.active);
    assert!(!s.osk_open);
    assert!(overlay.contains(&OverlayEvent::VisibilityChanged { visible: false }));
}

#[test]
fn overlay_stick_edge_triggering_counts_once() {
    // Axis sequence 0, 0.8, 0.8, 0.8, 0: exactly one move-start and one
    // move-stop for the +1 horizontal direction, however long the hold.
    let mut osk = OskState::default();
    let mut starts = 0;
    let mut stops = 0;
    for x in [0, 800, 800, 800, 0] {
        let evs = update_osk_stick(&mut osk, x, 0, NOW);
        for e in &evs {
            match e {
                OverlayEvent::NavMove { phase: KeyPhase::Down, dx: 1, dy: 0, .. } => starts += 1,
                OverlayEvent::NavMove { phase: KeyPhase::Up, dx: 1, dy: 0, .. } => stops += 1,
                _ => panic!("unexpected event"),
            }
        }
    }
    assert_eq!(starts, 1);
    assert_eq!(stops, 1);
}

#[test]
fn overlay_stick_diagonal_gives_two_independent_pairs() {
    let mut osk = OskState::default();
    let evs = update_osk_stick(&mut osk, 800, 800, NOW);
    assert_eq!(
        evs,
        vec![
            OverlayEvent::NavMove { phase: KeyPhase::Down, dx: 1, dy: 0, ts_ms: NOW },
            OverlayEvent::NavMove { phase: KeyPhase::Down, dx: 0, dy: -1, ts_ms: NOW },
        ]
    );
    let evs = update_osk_stick(&mut osk, 0, 0, NOW);
    assert_eq!(
        evs,
        vec![
            OverlayEvent::NavMove { phase: KeyPhase::Up, dx: 1, dy: 0, ts_ms: NOW },
            OverlayEvent::NavMove { phase: KeyPhase::Up, dx: 0, dy: -1, ts_ms: NOW },
        ]
    );
}

#[test]
fn overlay_stick_direction_reversal_stops_then_starts() {
    let mut osk = OskState::default();
    let _ = update_osk_stick(&mut osk, 800, 0, NOW);
    let evs = update_osk_stick(&mut osk, -800, 0, NOW);
    assert_eq!(
        evs,
        vec![
            OverlayEvent::NavMove { phase: KeyPhase::Up, dx: 1, dy: 0, ts_ms: NOW },
            OverlayEvent::NavMove { phase: KeyPhase::Down, dx: -1, dy: 0, ts_ms: NOW },
        ]
    );
}

#[test]
fn exactly_one_continuous_mapper_runs_per_tick() {
    // System mode: stick motion reaches the sink, not the overlay.
    let mut s = AppState::default();
    s.active = true;
    let mut mouse = MouseState::default();
    let mut osk = OskState::default();
    let stick = StickSample { lx: 1000, ly: 0, rx: 0, ry: 0 };
    let (sink, overlay) = run_tick(&mut s, &mut mouse, &mut osk, vec![], vec![], stick);
    assert_eq!(sink, vec![SinkEvent::PointerMove { dx: 25, dy: 0 }]);
    assert_eq!(overlay, vec![]);
    assert_eq!(osk.stick_active_x, 0);

    // Overlay mode: the same deflection becomes a navigation edge instead.
    s.osk_open = true;
    let mut mouse2 = MouseState::default();
    let (sink, overlay) = run_tick(&mut s, &mut mouse2, &mut osk, vec![], vec![], stick);
    assert_eq!(sink, vec![]);
    assert_eq!(
        overlay,
        vec![OverlayEvent::NavMove { phase: KeyPhase::Down, dx: 1, dy: 0, ts_ms: NOW }]
    );
    assert_eq!(mouse2.x_remainder, 0);
}

#[test]
fn overlay_close_mid_drain_reroutes_following_events() {
    // The back button's release closes the overlay; a later event in the
    // same drain must already be read in system mode.
    let mut s = AppState::default();
    s.active = true;
    s.osk_open = true;
    let mut mouse = MouseState::default();
    let mut osk = OskState::default();
    let (sink, overlay) = run_tick(
        &mut s,
        &mut mouse,
        &mut osk,
        vec![ev(Button::East, KeyPhase::Up), ev(Button::South, KeyPhase::Down)],
        vec![],
        centered(),
    );
    assert!(!s.osk_open);
    assert_eq!(overlay, vec![OverlayEvent::VisibilityChanged { visible: false }]);
    assert_eq!(
        sink,
        vec![SinkEvent::MouseButton { button: MouseBtn::Left, phase: KeyPhase::Down }]
    );
}

#[test]
fn dpad_maps_to_moves_in_overlay_mode() {
    let mut s = AppState::default();
    s.active = true;
    s.osk_open = true;
    let mut sink = Vec::new();
    let mut overlay = Vec::new();
    apply_event(&mut s, &ev(Button::DPadLeft, KeyPhase::Down), FG, OWN, NOW, &mut sink, &mut overlay);
    apply_event(&mut s, &ev(Button::Select, KeyPhase::Down), FG, OWN, NOW, &mut sink, &mut overlay);
    assert_eq!(sink, vec![]);
    assert_eq!(
        overlay,
        vec![
            OverlayEvent::NavMove { phase: KeyPhase::Down, dx: -1, dy: 0, ts_ms: NOW },
            OverlayEvent::NavShift,
        ]
    );
}
