//! Building the synthetic keystroke sequence for one host `send_key`
//! request.
//!
//! A request names its phase ("down", "up" or "repeat") and one of three
//! ways to say which key: a named logical key, a raw hardware scan code, or
//! literal text sent as UTF-16 code units. Modifiers are pressed in listed
//! order before the key on "down" and released in reverse order after the
//! key on "up". The result is a flat list of low-level key inputs in
//! injection order; the host feeds them to the OS unchanged, after asking
//! the focus guardian where they will land.

use vstd::prelude::*;

use crate::focus::FocusAction;
use crate::focus::guard_focus;
use crate::focus::spec_focus_decision;
use crate::state::AppState;

verus! {

/// One key-input request: which key (exactly one of `key`, `scan_code`,
/// `text` is consulted, in that precedence), which edge, and the modifiers
/// wrapped around it.
#[derive(Debug)]
pub struct KeyPayload {
    /// "down", "up" or "repeat".
    pub phase: String,
    /// A named logical key such as "{enter}".
    pub key: Option<String>,
    /// A raw hardware scan code.
    pub scan_code: Option<u16>,
    /// Literal text, sent as paired press/release of its UTF-16 units.
    pub text: Option<String>,
    /// Modifier names: "shift", "ctrl", "alt", "win".
    pub modifiers: Option<Vec<String>>,
}

/// One low-level synthetic key input, in OS injection form: a scan code or
/// a UTF-16 unit, one edge, with the extended-key marker for codes from the
/// 0xE0 page.
#[derive(Clone, Copy, Debug, PartialEq, Eq, Structural)]
pub struct KeyInput {
    pub scan: u16,
    pub up: bool,
    pub extended: bool,
    pub unicode: bool,
}

/// The hardware scan code of a modifier name; 0 for an unknown name.
pub open spec fn spec_modifier_scan(name: Seq<char>) -> u16 {
    if name == "shift"@ {
        0x2A
    } else if name == "ctrl"@ {
        0x1D
    } else if name == "alt"@ {
        0x38
    } else if name == "win"@ {
        0xE05B
    } else {
        0
    }
}

/// The hardware scan code of a named logical key; 0 for an unknown name.
pub open spec fn spec_key_scan(name: Seq<char>) -> u16 {
    if name == "{enter}"@ {
        0x1C
    } else if name == "{bksp}"@ {
        0x0E
    } else if name == "{space}"@ {
        0x39
    } else if name == "{tab}"@ {
        0x0F
    } else if name == "{esc}"@ {
        0x01
    } else if name == "{shift}"@ {
        0x2A
    } else if name == "{lock}"@ {
        0x3A
    } else if name == "{arrowup}"@ {
        0xE048
    } else if name == "{arrowdown}"@ {
        0xE050
    } else if name == "{arrowleft}"@ {
        0xE04B
    } else if name == "{arrowright}"@ {
        0xE04D
    } else {
        0
    }
}

/// A scan-code input: the low byte is injected, and codes on the 0xE0 page
/// carry the extended-key marker.
pub open spec fn spec_scan_input(sc: u16, up: bool) -> KeyInput {
    KeyInput { scan: sc & 0xFF, up, extended: (sc & 0xFF00) == 0xE000, unicode: false }
}

/// A UTF-16 text unit input.
pub open spec fn spec_unicode_input(unit: u16, up: bool) -> KeyInput {
    KeyInput { scan: unit, up, extended: false, unicode: true }
}

/// Modifier presses in listed order, unknown names skipped.
pub open spec fn spec_mods_down(mods: Seq<String>) -> Seq<KeyInput>
    decreases mods.len(),
{
    if mods.len() == 0 {
        Seq::empty()
    } else {
        spec_mods_down(mods.drop_last()) + (if spec_modifier_scan(mods.last()@) != 0 {
            seq![spec_scan_input(spec_modifier_scan(mods.last()@), false)]
        } else {
            Seq::empty()
        })
    }
}

/// Modifier releases in reverse listed order, unknown names skipped.
pub open spec fn spec_mods_up(mods: Seq<String>) -> Seq<KeyInput>
    decreases mods.len(),
{
    if mods.len() == 0 {
        Seq::empty()
    } else {
        spec_mods_up(mods.drop_first()) + (if spec_modifier_scan(mods[0]@) != 0 {
            seq![spec_scan_input(spec_modifier_scan(mods[0]@), true)]
        } else {
            Seq::empty()
        })
    }
}

/// Literal text as paired press/release of each UTF-16 unit, in text order.
pub open spec fn spec_text_pairs(units: Seq<u16>) -> Seq<KeyInput>
    decreases units.len(),
{
    if units.len() == 0 {
        Seq::empty()
    } else {
        spec_text_pairs(units.drop_last()) + seq![
            spec_unicode_input(units.last(), false),
            spec_unicode_input(units.last(), true),
        ]
    }
}

/// The key inputs the request's own key (without modifiers) contributes:
/// a raw scan code is taken as given; a named key goes through the name
/// table and an unknown name contributes nothing; text is sent only on
/// "down" or "repeat", as press/release pairs of `units`.
pub open spec fn spec_primary_inputs(payload: KeyPayload, units: Seq<u16>) -> Seq<KeyInput> {
    let up = payload.phase@ == "up"@;
    match payload.scan_code {
        Some(sc) => seq![spec_scan_input(sc, up)],
        None => match payload.key {
            Some(name) => if spec_key_scan(name@) != 0 {
                seq![spec_scan_input(spec_key_scan(name@), up)]
            } else {
                Seq::empty()
            },
            None => match payload.text {
                Some(_) => if payload.phase@ == "down"@ || payload.phase@ == "repeat"@ {
                    spec_text_pairs(units)
                } else {
                    Seq::empty()
                },
                None => Seq::empty(),
            },
        },
    }
}

/// The whole injection sequence for one request: modifier presses (on
/// "down") before the key, the key itself, modifier releases in reverse
/// order (on "up") after it. `units` stands for the UTF-16 encoding of
/// `text` where the request carries text.
pub open spec fn spec_key_inputs(payload: KeyPayload, units: Seq<u16>) -> Seq<KeyInput> {
    let mods_down = match payload.modifiers {
        Some(ms) => if payload.phase@ == "down"@ {
            spec_mods_down(ms@)
        } else {
            Seq::empty()
        },
        None => Seq::empty(),
    };
    let mods_up = match payload.modifiers {
        Some(ms) => if payload.phase@ == "up"@ {
            spec_mods_up(ms@)
        } else {
            Seq::empty()
        },
        None => Seq::empty(),
    };
    mods_down + spec_primary_inputs(payload, units) + mods_up
}

/// Look up a modifier name's scan code.
fn modifier_scan(name: &String) -> (sc: u16)
    ensures
        sc == spec_modifier_scan(name@),
{
    if *name == "shift".to_owned() {
        0x2A
    } else if *name == "ctrl".to_owned() {
        0x1D
    } else if *name == "alt".to_owned() {
        0x38
    } else if *name == "win".to_owned() {
        0xE05B
    } else {
        0
    }
}

/// Look up a named logical key's scan code.
fn key_scan(name: &String) -> (sc: u16)
    ensures
        sc == spec_key_scan(name@),
{
    if *name == "{enter}".to_owned() {
        0x1C
    } else if *name == "{bksp}".to_owned() {
        0x0E
    } else if *name == "{space}".to_owned() {
        0x39
    } else if *name == "{tab}".to_owned() {
        0x0F
    } else if *name == "{esc}".to_owned() {
        0x01
    } else if *name == "{shift}".to_owned() {
        0x2A
    } else if *name == "{lock}".to_owned() {
        0x3A
    } else if *name == "{arrowup}".to_owned() {
        0xE048
    } else if *name == "{arrowdown}".to_owned() {
        0xE050
    } else if *name == "{arrowleft}".to_owned() {
        0xE04B
    } else if *name == "{arrowright}".to_owned() {
        0xE04D
    } else {
        0
    }
}

/// Build a scan-code input.
fn scan_input(sc: u16, up: bool) -> (r: KeyInput)
    ensures
        r == spec_scan_input(sc, up),
{
    KeyInput { scan: sc & 0xFF, up, extended: (sc & 0xFF00) == 0xE000, unicode: false }
}

/// Build the injection sequence for one request, with the text's UTF-16
/// units supplied by the caller. The sequence is exactly what
/// [`spec_key_inputs`] states for these inputs.
pub fn key_inputs_with_text(payload: &KeyPayload, units: &Vec<u16>) -> (r: Vec<KeyInput>)
    ensures
        r@ == spec_key_inputs(*payload, units@),
{
    let mut r: Vec<KeyInput> = Vec::new();
    let up = payload.phase == "up".to_owned();
    let down = payload.phase == "down".to_owned();
    let repeat = payload.phase == "repeat".to_owned();

    if down {
        if let Some(mods) = &payload.modifiers {
            let mut i: usize = 0;
            while i < mods.len()
                invariant
                    0 <= i <= mods.len(),
                    r@ == spec_mods_down(mods@.subrange(0, i as int)),
                decreases mods.len() - i,
            {
                let ghost pre = mods@.subrange(0, i as int);
                let sc = modifier_scan(&mods[i]);
                if sc != 0 {
                    let inp = scan_input(sc, false);
                    r.push(inp);
                }
                proof {
                    assert(mods@.subrange(0, i as int + 1).drop_last() =~= pre);
                    assert(mods@.subrange(0, i as int + 1).last() == mods@[i as int]);
                }
                i = i + 1;
            }
            proof {
                assert(mods@.subrange(0, mods@.len() as int) =~= mods@);
            }
        }
    }
    let ghost mods_down_part = r@;

    if let Some(sc) = payload.scan_code {
        let inp = scan_input(sc, up);
        r.push(inp);
    } else if let Some(name) = &payload.key {
        let sc = key_scan(name);
        if sc != 0 {
            let inp = scan_input(sc, up);
            r.push(inp);
        }
    } else if payload.text.is_some() {
        if down || repeat {
            let mut i: usize = 0;
            while i < units.len()
                invariant
                    0 <= i <= units.len(),
                    r@ == mods_down_part + spec_text_pairs(units@.subrange(0, i as int)),
                decreases units.len() - i,
            {
                let ghost pre = units@.subrange(0, i as int);
                let unit = units[i];
                r.push(KeyInput { scan: unit, up: false, extended: false, unicode: true });
                r.push(KeyInput { scan: unit, up: true, extended: false, unicode: true });
                proof {
                    assert(units@.subrange(0, i as int + 1).drop_last() =~= pre);
                    assert(units@.subrange(0, i as int + 1).last() == units@[i as int]);
                }
                i = i + 1;
            }
            proof {
                assert(units@.subrange(0, units@.len() as int) =~= units@);
            }
        }
    }
    let ghost primary_part = r@;
    proof {
        assert(primary_part =~= mods_down_part + spec_primary_inputs(*payload, units@));
    }

    if up {
        if let Some(mods) = &payload.modifiers {
            let mut j: usize = mods.len();
            while j > 0
                invariant
                    0 <= j <= mods.len(),
                    r@ == primary_part + spec_mods_up(mods@.subrange(j as int, mods@.len() as int)),
                decreases j,
            {
                let ghost pre = mods@.subrange(j as int, mods@.len() as int);
                j = j - 1;
                let sc = modifier_scan(&mods[j]);
                if sc != 0 {
                    let inp = scan_input(sc, true);
                    r.push(inp);
                }
                proof {
                    assert(mods@.subrange(j as int, mods@.len() as int).drop_first() =~= pre);
                    assert(mods@.subrange(j as int, mods@.len() as int)[0] == mods@[j as int]);
                }
            }
            proof {
                assert(mods@.subrange(0, mods@.len() as int) =~= mods@);
            }
        }
    }
    proof {
        assert(r@ =~= spec_key_inputs(*payload, units@));
    }
    r
}

/// Stands for what `str::encode_utf16` returns on a string: its UTF-16 code
/// units, a function of the characters alone.
pub uninterp spec fn utf16_of(s: Seq<char>) -> Seq<u16>;

/// Relies on str::encode_utf16: yields the UTF-16 code units of the string,
/// determined by its characters alone.
#[verifier::external_body]
fn encode_utf16_units(s: &String) -> (r: Vec<u16>)
    ensures
        r@ == utf16_of(s@),
{
    s.encode_utf16().collect()
}

/// The UTF-16 units a request's text stands for: none when it carries no
/// text.
pub open spec fn spec_payload_units(payload: KeyPayload) -> Seq<u16> {
    match payload.text {
        Some(t) => utf16_of(t@),
        None => Seq::empty(),
    }
}

/// Serve one host `send_key` request: run the focus rule against the
/// current foreground window, then build the injection sequence. The host
/// performs the returned focus action first (restoring the target window
/// and yielding briefly if asked), then injects the inputs in order.
pub fn send_key(
    state: &mut AppState,
    payload: &KeyPayload,
    current_fg: isize,
    own_window: isize,
) -> (plan: (FocusAction, Vec<KeyInput>))
    ensures
        plan.0 == spec_focus_decision(current_fg, own_window, old(state).target_window),
        *final(state) == (AppState {
            target_window: match plan.0 {
                FocusAction::AdoptForeground(w) => w,
                _ => old(state).target_window,
            },
            ..*old(state)
        }),
        old(state).wf() ==> final(state).wf(),
        plan.1@ == spec_key_inputs(*payload, spec_payload_units(*payload)),
{
    let action = guard_focus(state, current_fg, own_window);
    let units: Vec<u16> = match &payload.text {
        Some(t) => encode_utf16_units(t),
        None => Vec::new(),
    };
    proof {
        assert(units@ == spec_payload_units(*payload));
    }
    let inputs = key_inputs_with_text(payload, &units);
    (action, inputs)
}

} // verus!
