//! The decisions behind a small windowed demo: a background picture with a
//! square in the corner that is green during even seconds and blue during odd
//! ones, redrawn at most sixty times a second until the user quits.
//!
//! Nothing here opens a window, reads a clock or sleeps. The program around
//! this library does that: every frame it hands over the pending input events
//! and a clock reading, and gets back the list of actions to carry out.

pub mod clock;
pub mod color;
pub mod input;
pub mod render_loop;
pub mod texture;
