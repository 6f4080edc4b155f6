//! Decision logic of a small desktop shell that hosts an embedded browser
//! control in a native window.
//!
//! Everything here works on plain values. The program around this library
//! talks to the window system and to the browser control, hands what it read
//! to these functions, and carries out what they return.

pub mod blocking;
pub mod geometry;
pub mod message;
pub mod shell;
pub mod startup;
pub mod text;
pub mod window;

pub use text::create_utf_string;
