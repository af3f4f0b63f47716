//! The closed vocabulary of the engine: the controller buttons it maps, the
//! press/release phase of a discrete event, and the typed events it hands to
//! the synthetic input sink and to the overlay front end.

use vstd::prelude::*;

verus! {

/// The controller buttons the engine reacts to. Any other button a backend
/// reports is fed in as `Other` and ignored by every mapper.
#[derive(Clone, Copy, Debug, PartialEq, Eq, Structural)]
pub enum Button {
    /// The primary confirm button (bottom face button).
    South,
    /// The secondary / back face button (right face button).
    East,
    /// The overlay-toggle button; also one half of the activation combo.
    Start,
    /// The other half of the activation combo; shift in overlay mode.
    Select,
    DPadUp,
    DPadDown,
    DPadLeft,
    DPadRight,
    /// Any button outside the mapped set.
    Other,
}

/// Whether a discrete event or a synthetic key/button action is the press
/// (down) or the release (up) edge.
#[derive(Clone, Copy, Debug, PartialEq, Eq, Structural)]
pub enum KeyPhase {
    Down,
    Up,
}

/// The two synthetic mouse buttons the engine drives.
#[derive(Clone, Copy, Debug, PartialEq, Eq, Structural)]
pub enum MouseBtn {
    Left,
    Right,
}

/// The four arrow keys the directional pad maps to in system mode.
#[derive(Clone, Copy, Debug, PartialEq, Eq, Structural)]
pub enum ArrowDir {
    Up,
    Down,
    Left,
    Right,
}

/// Scroll direction for a synthetic scroll action.
#[derive(Clone, Copy, Debug, PartialEq, Eq, Structural)]
pub enum ScrollAxis {
    Horizontal,
    Vertical,
}

/// One synthetic input action for the OS input sink.
#[derive(Clone, Copy, Debug, PartialEq, Eq, Structural)]
pub enum SinkEvent {
    /// Press or release a mouse button.
    MouseButton { button: MouseBtn, phase: KeyPhase },
    /// Press or release an arrow key.
    ArrowKey { dir: ArrowDir, phase: KeyPhase },
    /// Move the pointer by a relative pixel delta.
    PointerMove { dx: i32, dy: i32 },
    /// Scroll by a whole number of ticks along one axis.
    Scroll { amount: i32, axis: ScrollAxis },
}

/// One notification for the overlay front end. `ts_ms` carries the engine's
/// clock reading at the tick that produced the event, so the front end can
/// distinguish taps from holds.
#[derive(Clone, Copy, Debug, PartialEq, Eq, Structural)]
pub enum OverlayEvent {
    /// The overlay was shown (`true`) or hidden (`false`).
    VisibilityChanged { visible: bool },
    /// Virtualization as a whole was engaged (`true`) or disengaged (`false`).
    ActiveChanged { active: bool },
    /// Directional focus traversal: `dx`, `dy` in {-1, 0, 1}, unit magnitude.
    NavMove { phase: KeyPhase, dx: i32, dy: i32, ts_ms: u64 },
    /// The confirm button, both edges reported.
    NavSelect { phase: KeyPhase, ts_ms: u64 },
    /// Cycle the overlay's key layer.
    NavShift,
}

} // verus!
