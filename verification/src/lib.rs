//! Core of a hotkey-toggled auto clicker: the shared state, the input
//! observer's transitions and the click engine's per-cycle decisions.

pub mod clicker;
pub mod control;
pub mod observer;
pub mod engine;

pub use clicker::{AutoClicker, ClickMode, ClickerView};
