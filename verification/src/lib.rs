//! Global hotkeys for desktop applications: the decisions of the macOS
//! backend, verified.
//!
//! Keys that Carbon knows are registered with `RegisterEventHotKey`; media
//! keys and side-specific modifier keys are watched through a Core Graphics
//! event tap, and when the tap cannot be had (no accessibility permission),
//! modifier keys fall back to Carbon. The system calls are the caller's: the
//! manager hands out, step by step, what to ask of the system, and takes the
//! answers back.

pub mod carbon;
pub mod code;
pub mod error;
pub mod handler;
pub mod hotkey;
pub mod keymap;
pub mod laws;
pub mod manager;
pub mod media;
pub mod modifiers;

pub use code::Code;
pub use error::Error;
pub use handler::{hotkey_handler, modifiers_match, SideKeyStates};
pub use hotkey::{GlobalHotKeyEvent, HotKey, HotKeyState};
pub use keymap::{key_to_scancode, requires_event_tap};
pub use manager::{
    Batch, BatchOp, BatchStep, CarbonRegistration, EventHotKeyId, EventTapRelease,
    GlobalHotKeyManager, HotKeyWrapper, RegisterStep, UnregisterStep,
};
pub use media::{MediaState, TapEventKind, NX_KEYTYPE};
pub use modifiers::Modifiers;
