//! An 8-by-8 board of sparkles: lights that are either bright or dim.
//!
//! * [`grid`] holds the board, [`Sparkles`], with its two operations: `toggle`
//!   inverts one light, `display` walks the board and reports every light.
//! * [`laws`] proves what follows from their contracts: a fresh board is dim,
//!   two toggles cancel, a toggle touches one light only, a walk reports every
//!   light once, and a light is changed by an odd number of toggles only.
//! * [`mutator`] is one step of the background task that toggles a light at
//!   random and says how long to rest.
//! * [`render`] turns the board into a frame of pixels.
//!
//! The crate neither sleeps, nor spawns threads, nor opens a window: it
//! decides, and the program around it acts.

pub mod grid;
pub mod laws;
pub mod mutator;
pub mod render;

mod chance;

pub use grid::{Sparkle, Sparkles};
