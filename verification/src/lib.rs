//! Navigation-mode key remapping.
//!
//! A keyboard hook hands every raw event to an [`engine::Engine`]. The engine tracks
//! which keys are down, flips navigation mode when the activation chord is
//! completed, and decides for each event whether it passes, is suppressed, or
//! is replaced by an arrow-key event. While navigation mode is on, W/A/S/D
//! act as Up/Left/Down/Right.
//!
//! The engine owns no hook and injects nothing itself: it maps a state and an
//! event to the next state and an [`event::Verdict`], and the caller carries the
//! verdict out.

pub mod chord;
pub mod engine;
pub mod event;
pub mod key;
pub mod laws;
pub mod model;
pub mod pressed;
pub mod window;
