//! A small terminal tick-counter application, with its logic verified.
//!
//! The library models everything the application decides: how raw terminal
//! input is classified into events, how key presses map to actions, how the
//! mode/counter state machine reacts to each event, and which text regions a
//! frame shows for a given state and drawing area. The surrounding binary
//! owns the terminal itself (raw mode, the alternate screen, the input and
//! tick threads) and feeds plain values in and out of this crate.

pub mod app;
pub mod events;
pub mod layout;
pub mod root;
pub mod text;
pub mod tick_counter;
