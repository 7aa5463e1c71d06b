//! Input-state tracking for a windowed application and the decision logic of
//! its fixed-rate tick tasks.
//!
//! - `catalog`: the recognised keys and buttons and their ids, per namespace.
//! - `input`: the per-key press/held state machine and its laws.
//! - `translate`: raw window-system events to catalog events, and the quit key.
//! - `tick`: tick periods, the per-iteration decision of a tick task, and the
//!   controller side of its stop flag.
pub mod catalog;
pub mod input;
pub mod tick;
pub mod translate;
