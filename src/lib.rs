//! The core of a terminal emulator: the byte stream that a shell writes to
//! its pseudo-terminal is split into printable characters, control bytes and
//! control sequences, and each of them is applied to a fixed-size grid of
//! styled cells with a cursor.
//!
//! `screen` models what the terminal shows and how each action changes it;
//! `grid` holds the executable grid, proved against that model; `color`
//! resolves select-graphic-rendition parameters; `stream` hands the bytes to
//! vte's parser; `session` decides what a read or a close of the shell's
//! session yields; `render` turns cells into what the renderer draws;
//! `laws` states properties that hold across several actions.

pub mod color;
pub mod grid;
pub mod laws;
pub mod render;
pub mod screen;
pub mod session;
pub mod stream;
