//! One step of the background mutator: pick a light at random, toggle it,
//! and say how long to rest before the next step.
//!
//! The step neither sleeps nor loops. The caller owns the clock: it runs
//! `mutate`, sleeps for `delay_ms`, and starts over.

use crate::chance::uniform;
use crate::grid::{flip, Sparkles, SIDE};
use vstd::prelude::*;

verus! {

/// Shortest rest between two toggles, in milliseconds.
pub const MIN_DELAY_MS: u64 = 50;

/// The rest between two toggles stays below this many milliseconds.
pub const MAX_DELAY_MS: u64 = 1000;

/// What one step of the mutator did and asks for.
#[derive(Clone, Copy, Debug, PartialEq, Eq, Structural)]
pub struct Step {
    /// Row of the light that was toggled.
    pub x: usize,
    /// Column of the light that was toggled.
    pub y: usize,
    /// How long to rest before the next step, in milliseconds.
    pub delay_ms: u64,
}

/// Draws the coordinates of one light, each uniformly from `0..SIDE`.
pub fn random_cell() -> (cell: (usize, usize))
    ensures
        cell.0 < SIDE,
        cell.1 < SIDE,
{
    let x = uniform(0, SIDE as u64) as usize;
    let y = uniform(0, SIDE as u64) as usize;
    (x, y)
}

/// Draws a rest uniformly from `MIN_DELAY_MS..MAX_DELAY_MS`.
pub fn random_delay() -> (delay_ms: u64)
    ensures
        MIN_DELAY_MS <= delay_ms < MAX_DELAY_MS,
{
    uniform(MIN_DELAY_MS, MAX_DELAY_MS)
}

/// Toggles one light of `board`, drawn at random, and draws the rest that
/// follows. Whatever was drawn, the light named in the result is the one
/// that changed, and no other did.
pub fn mutate(board: &mut Sparkles) -> (step: Step)
    ensures
        step.x < SIDE,
        step.y < SIDE,
        MIN_DELAY_MS <= step.delay_ms < MAX_DELAY_MS,
        final(board)@ == flip(old(board)@, step.x as int, step.y as int),
{
    let (x, y) = random_cell();
    board.toggle(x, y);
    let delay_ms = random_delay();
    Step { x, y, delay_ms }
}

} // verus!
