//! A gamepad input-virtualization engine.
//!
//! The library turns discrete controller button events and continuous stick
//! readings into synthetic mouse/keyboard actions, or — while an on-screen
//! keyboard overlay is open — into navigation events for that overlay. It
//! holds the activation state machine (a debounced two-button combo toggle),
//! the analog-to-digital motion conversion with sub-unit remainder carry, and
//! the focus-preservation rule that keeps synthetic input landing on the
//! window the user was working in.
//!
//! All quantities that the original analog hardware reports as fractions are
//! carried here as fixed-point integers in thousandths (milli-units), so the
//! whole engine is plain integer arithmetic. A host shell owns the actual
//! controller backend, input injection, and window system; it feeds plain
//! values in and performs the returned actions.

pub mod engine;
pub mod events;
pub mod focus;
pub mod keys;
pub mod laws;
pub mod motion;
pub mod osk;
pub mod state;
pub mod system;

pub use engine::ComboHold;
pub use engine::MappedAction;
pub use engine::StickSample;
pub use engine::TickEvent;
pub use engine::TickOutput;
pub use engine::apply_event;
pub use engine::combo_any;
pub use engine::handle_input;
pub use engine::tick;
pub use engine::toggle_step;

pub use events::ArrowDir;
pub use events::Button;
pub use events::KeyPhase;
pub use events::MouseBtn;
pub use events::OverlayEvent;
pub use events::ScrollAxis;
pub use events::SinkEvent;

pub use focus::FocusAction;
pub use focus::guard_focus;

pub use keys::KeyInput;
pub use keys::KeyPayload;
pub use keys::key_inputs_with_text;
pub use keys::send_key;

pub use motion::DEAD_ZONE;
pub use motion::FIXED_ONE;
pub use motion::compute_axis_raw;
pub use motion::step_axis;

pub use osk::OSK_THRESHOLD;
pub use osk::OskAction;
pub use osk::OskState;
pub use osk::handle_osk_input;
pub use osk::update_osk_stick;

pub use state::AppState;
pub use state::activate;
pub use state::close_osk;
pub use state::deactivate;
pub use state::open_osk;
pub use state::toggle_active;

pub use system::MouseState;
pub use system::SystemAction;
pub use system::handle_system_input;
pub use system::update_mouse;
