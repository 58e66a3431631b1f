//! Matrix-to-report pipeline of a small macro keypad: matrix scanning,
//! per-key edge detection, the macro table, and the sequencing of USB HID
//! keyboard reports.
pub mod keycode;
pub mod layout;
pub mod report;
pub mod sequencer;
pub mod matrix;
pub mod tracker;
pub mod keyboard;
pub mod keypad;
