//! One frame of the render loop: the board turned into a buffer of pixels,
//! one pixel per light, and the rule that ends the loop.
//!
//! A pixel is a packed 24-bit RGB value. The pixel of the light `(x, y)`
//! stands at `slot(x, y)`, so the buffer reads row by row like the board. A
//! dim light is black. A bright light takes one of three colours, drawn
//! afresh for every light and every frame.

use crate::chance::pick_one;
use crate::grid::{in_grid, slot, snapshot, Sparkle, Sparkles, CELLS, SIDE};
use vstd::prelude::*;

verus! {

/// Colour of a dim light: black.
pub const OFF_COLOR: u32 = 0x00_00_00;

/// Pure blue.
pub const BLUE: u32 = 0x00_00_FF;

/// Pure green.
pub const GREEN: u32 = 0x00_FF_00;

/// Pure red.
pub const RED: u32 = 0xFF_00_00;

/// Largest value of a pixel: eight bits each of red, green and blue.
pub const MAX_COLOR: u32 = 0xFF_FF_FF;

/// Rest between two frames, in milliseconds.
pub const FRAME_DELAY_MS: u64 = 50;

/// `color` is one of the three colours a bright light can take.
pub open spec fn is_bright_color(color: u32) -> bool {
    color == BLUE || color == GREEN || color == RED
}

/// The pixel of a light that shows `sparkle`, given the bright colour that
/// was drawn for it.
pub open spec fn color_of(sparkle: Sparkle, bright: u32) -> u32 {
    match sparkle {
        Sparkle::Bright => bright,
        Sparkle::Dim => OFF_COLOR,
    }
}

/// The frame of the board `m` when `picks[i]` is the bright colour drawn for
/// the `i`-th light of the walk.
pub open spec fn painted(m: Seq<Seq<bool>>, picks: Seq<u32>) -> Seq<u32> {
    Seq::new(CELLS as nat, |i: int| color_of(snapshot(m)[i].2, picks[i]))
}

/// The colours a bright light can take.
pub fn bright_colors() -> (palette: [u32; 3])
    ensures
        palette@ == seq![BLUE, GREEN, RED],
{
    let palette = [BLUE, GREEN, RED];
    palette
}

/// Draws one of the bright colours.
pub fn pick_bright_color() -> (color: u32)
    ensures
        is_bright_color(color),
{
    let palette = bright_colors();
    pick_one(palette.as_slice()).unwrap()
}

/// The pixel of a light that shows `sparkle`, given the bright colour that
/// was drawn for it: that colour if the light is bright, black if it is dim.
pub fn color(sparkle: Sparkle, bright: u32) -> (pixel: u32)
    ensures
        pixel == color_of(sparkle, bright),
{
    match sparkle {
        Sparkle::Bright => bright,
        Sparkle::Dim => OFF_COLOR,
    }
}

/// Paints a frame of `board` with the bright colours given in `picks`, one
/// for each light in the order of the walk. The pick of a dim light is not
/// used.
pub fn paint(board: &Sparkles, picks: &[u32; CELLS]) -> (buffer: Vec<u32>)
    ensures
        buffer@ == painted(board@, picks@),
{
    let cells = board.display();
    let mut buffer: Vec<u32> = vec![OFF_COLOR; CELLS];
    for i in 0..CELLS
        invariant
            cells@ == snapshot(board@),
            buffer@.len() == CELLS,
            forall|j: int| 0 <= j < i ==> buffer@[j] == painted(board@, picks@)[j],
    {
        let (x, y, sparkle) = cells[i];
        buffer.set(x * SIDE + y, color(sparkle, picks[x * SIDE + y]));
    }
    buffer
}

/// Paints a frame of `board`, drawing a bright colour for every light.
/// Whatever was drawn, the frame has one pixel per light, black where the
/// light is dim and one of the bright colours where it is bright, and every
/// pixel fits in twenty-four bits.
pub fn render(board: &Sparkles) -> (buffer: Vec<u32>)
    ensures
        buffer@.len() == CELLS,
        forall|i: int| 0 <= i < CELLS ==> #[trigger] buffer@[i] <= MAX_COLOR,
        forall|x: int, y: int|
            in_grid(x, y) && !board.lit(x, y) ==> buffer@[#[trigger] slot(x, y)] == OFF_COLOR,
        forall|x: int, y: int|
            in_grid(x, y) && board.lit(x, y) ==> is_bright_color(buffer@[#[trigger] slot(x, y)]),
{
    let mut picks = [OFF_COLOR; CELLS];
    for i in 0..CELLS
        invariant
            forall|j: int| 0 <= j < i ==> is_bright_color(#[trigger] picks@[j]),
    {
        picks[i] = pick_bright_color();
    }
    paint(board, &picks)
}

/// The render loop ends when the escape key is down or the window is no
/// longer open.
pub fn quit_requested(escape_down: bool, window_open: bool) -> (quit: bool)
    ensures
        quit == (escape_down || !window_open),
{
    escape_down || !window_open
}

} // verus!
