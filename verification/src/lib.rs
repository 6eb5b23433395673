//! A verified terminal-emulator core: a styled cell grid with a
//! double-buffered differ, a VT100-family state machine driven by a byte
//! parser, and a render backend that emits ANSI escape sequences.
//!
//! Coordinates are 0-based everywhere inside the library; the backend adds 1
//! on emission where the wire format is 1-based.

pub mod backends;
pub mod buffer;
pub mod cell;
pub mod layout;
pub mod parser;
pub mod style;
pub mod terminal;
