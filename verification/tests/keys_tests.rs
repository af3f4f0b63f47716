//! Building injection sequences from send-key requests: named keys, raw
//! scan codes, literal text, and modifier ordering.

use padvirt::AppState;
use padvirt::FocusAction;
use padvirt::KeyInput;
use padvirt::KeyPayload;
use padvirt::key_inputs_with_text;
use padvirt::send_key;

const OWN: isize = 77;

fn payload(phase: &str) -> KeyPayload {
    KeyPayload {
        phase: phase.to_string(),
        key: None,
        scan_code: None,
        text: None,
        modifiers: None,
    }
}

fn scan(scan: u16, up: bool, extended: bool) -> KeyInput {
    KeyInput { scan, up, extended, unicode: false }
}

#[test]
fn named_key_down() {
    let mut p = payload("down");
    p.key = Some("{enter}".to_string());
    let inputs = key_inputs_with_text(&p, &vec![]);
    assert_eq!(inputs, vec![scan(0x1C, false, false)]);
}

#[test]
fn named_extended_key_sends_low_byte_with_marker() {
    let mut p = payload("down");
    p.key = Some("{arrowup}".to_string());
    let inputs = key_inputs_with_text(&p, &vec![]);
    assert_eq!(inputs, vec![scan(0x48, false, true)]);
}

#[test]
fn unknown_key_name_sends_nothing() {
    let mut p = payload("down");
    p.key = Some("{bogus}".to_string());
    let inputs = key_inputs_with_text(&p, &vec![]);
    assert_eq!(inputs, vec![]);
}

#[test]
fn raw_scan_code_is_taken_as_given() {
    let mut p = payload("up");
    p.scan_code = Some(0x39);
    let inputs = key_inputs_with_text(&p, &vec![]);
    assert_eq!(inputs, vec![scan(0x39, true, false)]);
}

#[test]
fn modifiers_wrap_key_in_order() {
    let mut p = payload("down");
    p.key = Some("{enter}".to_string());
    p.modifiers = Some(vec!["ctrl".to_string(), "alt".to_string()]);
    let inputs = key_inputs_with_text(&p, &vec![]);
    assert_eq!(
        inputs,
        vec![scan(0x1D, false, false), scan(0x38, false, false), scan(0x1C, false, false)]
    );

    let mut p = payload("up");
    p.key = Some("{enter}".to_string());
    p.modifiers = Some(vec!["ctrl".to_string(), "alt".to_string()]);
    let inputs = key_inputs_with_text(&p, &vec![]);
    // Key released first, then the modifiers in reverse listed order.
    assert_eq!(
        inputs,
        vec![scan(0x1C, true, false), scan(0x38, true, false), scan(0x1D, true, false)]
    );
}

#[test]
fn unknown_modifier_is_skipped() {
    let mut p = payload("down");
    p.key = Some("{tab}".to_string());
    p.modifiers = Some(vec!["hyper".to_string(), "shift".to_string()]);
    let inputs = key_inputs_with_text(&p, &vec![]);
    assert_eq!(inputs, vec![scan(0x2A, false, false), scan(0x0F, false, false)]);
}

#[test]
fn win_modifier_is_extended() {
    let mut p = payload("down");
    p.scan_code = Some(0x1C);
    p.modifiers = Some(vec!["win".to_string()]);
    let inputs = key_inputs_with_text(&p, &vec![]);
    assert_eq!(inputs, vec![scan(0x5B, false, true), scan(0x1C, false, false)]);
}

#[test]
fn text_units_become_press_release_pairs() {
    let mut p = payload("down");
    p.text = Some("ab".to_string());
    let units: Vec<u16> = vec![97, 98];
    let inputs = key_inputs_with_text(&p, &units);
    let unicode = |scan: u16, up: bool| KeyInput { scan, up, extended: false, unicode: true };
    assert_eq!(
        inputs,
        vec![unicode(97, false), unicode(97, true), unicode(98, false), unicode(98, true)]
    );
}

#[test]
fn text_is_ignored_on_release_phase() {
    let mut p = payload("up");
    p.text = Some("ab".to_string());
    let inputs = key_inputs_with_text(&p, &vec![97, 98]);
    assert_eq!(inputs, vec![]);
}

#[test]
fn scan_code_takes_precedence_over_key_and_text() {
    let mut p = payload("down");
    p.scan_code = Some(0x0E);
    p.key = Some("{enter}".to_string());
    p.text = Some("x".to_string());
    let inputs = key_inputs_with_text(&p, &vec![120]);
    assert_eq!(inputs, vec![scan(0x0E, false, false)]);
}

#[test]
fn send_key_encodes_text_itself() {
    let mut s = AppState::default();
    let mut p = payload("down");
    p.text = Some("hi".to_string());
    let (action, inputs) = send_key(&mut s, &p, 42, OWN);
    assert_eq!(action, FocusAction::AdoptForeground(42));
    assert_eq!(s.target_window, 42);
    let unicode = |scan: u16, up: bool| KeyInput { scan, up, extended: false, unicode: true };
    assert_eq!(
        inputs,
        vec![unicode(104, false), unicode(104, true), unicode(105, false), unicode(105, true)]
    );
}

#[test]
fn send_key_restores_target_before_injecting() {
    let mut s = AppState::default();
    s.target_window = 42;
    let mut p = payload("down");
    p.key = Some("{esc}".to_string());
    let (action, inputs) = send_key(&mut s, &p, OWN, OWN);
    assert_eq!(action, FocusAction::RestoreTarget(42));
    assert_eq!(s.target_window, 42);
    assert_eq!(inputs, vec![scan(0x01, false, false)]);
}

#[test]
fn repeat_phase_sends_text_but_no_modifiers() {
    let mut p = payload("repeat");
    p.text = Some("z".to_string());
    p.modifiers = Some(vec!["shift".to_string()]);
    let inputs = key_inputs_with_text(&p, &vec![122]);
    let unicode = |scan: u16, up: bool| KeyInput { scan, up, extended: false, unicode: true };
    assert_eq!(inputs, vec![unicode(122, false), unicode(122, true)]);
}
