//! Hot-corner and left-Windows-key shortcuts, as decisions on plain values.
//!
//! The crate holds everything that is decided: which hooks the host has to
//! install or remove when a feature is switched, what becomes of each
//! low-level input event, and which keystrokes are injected for a hot-corner
//! click. Talking to the operating system is left to the host program, which
//! carries out the commands it is handed and reports back what happened.

pub mod keys;
pub mod event;
pub mod callbacks;
pub mod hooks;
pub mod shortcuts;
pub mod host;
