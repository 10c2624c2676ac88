//! Decision logic of a canvas onto which image files are dropped.
//!
//! The canvas keeps the last known world position of the pointer and, when a
//! file is dropped on the window, asks for a sprite at that position. The
//! crate holds no windowing, rendering or asset code: a host hands it what it
//! observed in a frame and carries out what the crate answers.

pub mod cursor;
pub mod file_drop;
pub mod math;
