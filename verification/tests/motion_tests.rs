//! The fixed-point motion conversion: the cubic curve, the dead zone, and
//! remainder conservation over many ticks.

use padvirt::MouseState;
use padvirt::ScrollAxis;
use padvirt::SinkEvent;
use padvirt::compute_axis_raw;
use padvirt::step_axis;
use padvirt::update_mouse;

#[test]
fn cubic_curve_exact_values() {
    // Full deflection: 1000 * 1.0 + 1000^3/10^6 * 24.0 = 25000 milli-pixels.
    assert_eq!(compute_axis_raw(1000, 1000, 24000), 25000);
    assert_eq!(compute_axis_raw(-1000, 1000, 24000), -25000);
    // Just past the dead zone: 100 + 24 milli-pixels.
    assert_eq!(compute_axis_raw(100, 1000, 24000), 124);
    // Half deflection: 500 + 3000 milli-pixels.
    assert_eq!(compute_axis_raw(500, 1000, 24000), 3500);
    // Scroll curve is purely cubic: 0.8^3 * 1.02 = 0.52224 -> 522.
    assert_eq!(compute_axis_raw(800, 0, 1020), 522);
    assert_eq!(compute_axis_raw(-800, 0, 1020), -522);
    assert_eq!(compute_axis_raw(0, 1000, 24000), 0);
}

#[test]
fn step_axis_truncates_toward_zero_and_carries() {
    assert_eq!(step_axis(3500, 0), (3, 500));
    assert_eq!(step_axis(3500, 500), (4, 0));
    assert_eq!(step_axis(-3500, 0), (-3, -500));
    assert_eq!(step_axis(-3500, -500), (-4, 0));
    assert_eq!(step_axis(999, 0), (0, 999));
    assert_eq!(step_axis(0, 0), (0, 0));
}

#[test]
fn dead_zone_emits_nothing_and_resets_remainders() {
    let mut st = MouseState::default();
    // Build up a remainder first.
    let evs = update_mouse(&mut st, 500, 0, 0, 0);
    assert_eq!(evs, vec![SinkEvent::PointerMove { dx: 3, dy: 0 }]);
    assert_eq!(st.x_remainder, 500);
    // Both axes at or inside 0.1: nothing moves, remainders reset.
    let evs = update_mouse(&mut st, 100, -100, 0, 0);
    assert_eq!(evs, vec![]);
    assert_eq!(st.x_remainder, 0);
    assert_eq!(st.y_remainder, 0);
}

#[test]
fn remainder_conservation_over_constant_hold() {
    // Half deflection gives 3500 milli-pixels per tick; over 4 ticks the
    // emitted pixels must account for 14000 exactly.
    let mut st = MouseState::default();
    let mut emitted: i64 = 0;
    let mut per_tick: Vec<i32> = Vec::new();
    for _ in 0..4 {
        let evs = update_mouse(&mut st, 500, 0, 0, 0);
        for ev in &evs {
            if let SinkEvent::PointerMove { dx, dy } = ev {
                emitted += *dx as i64;
                assert_eq!(*dy, 0);
                per_tick.push(*dx);
            }
        }
        assert!(st.x_remainder.abs() < 1000);
    }
    assert_eq!(per_tick, vec![3, 4, 3, 4]);
    assert_eq!(emitted * 1000 + st.x_remainder as i64, 4 * 3500);
    assert_eq!(st.x_remainder, 0);
}

#[test]
fn vertical_axis_is_sign_inverted() {
    let mut st = MouseState::default();
    // Stick up (positive) must move the pointer up (negative dy).
    let evs = update_mouse(&mut st, 0, 1000, 0, 0);
    assert_eq!(evs, vec![SinkEvent::PointerMove { dx: 0, dy: -25 }]);
}

#[test]
fn scroll_accumulates_across_ticks() {
    let mut st = MouseState::default();
    // 0.8 deflection gives 522 milli-ticks: below one tick on the first
    // poll, spilling over on the second.
    let evs = update_mouse(&mut st, 0, 0, 800, 0);
    assert_eq!(evs, vec![]);
    assert_eq!(st.scroll_x_remainder, 522);
    let evs = update_mouse(&mut st, 0, 0, 800, 0);
    assert_eq!(
        evs,
        vec![SinkEvent::Scroll { amount: 1, axis: ScrollAxis::Horizontal }]
    );
    assert_eq!(st.scroll_x_remainder, 44);
}

#[test]
fn scroll_vertical_is_sign_inverted() {
    let mut st = MouseState::default();
    st.scroll_y_remainder = 600;
    let evs = update_mouse(&mut st, 0, 0, 0, -800);
    assert_eq!(
        evs,
        vec![SinkEvent::Scroll { amount: 1, axis: ScrollAxis::Vertical }]
    );
    assert_eq!(st.scroll_y_remainder, 122);
}

#[test]
fn pointer_and_scroll_are_independent() {
    let mut st = MouseState::default();
    let evs = update_mouse(&mut st, 1000, 0, 0, 1000);
    assert_eq!(
        evs,
        vec![
            SinkEvent::PointerMove { dx: 25, dy: 0 },
            SinkEvent::Scroll { amount: -1, axis: ScrollAxis::Vertical },
        ]
    );
    // 1.02 * 1000^3/10^6 = 1020 milli-ticks: one tick, remainder -20.
    assert_eq!(st.scroll_y_remainder, -20);
}
