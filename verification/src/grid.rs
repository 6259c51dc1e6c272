//! The board itself: sixty-four lights in eight rows of eight, each bright or
//! dim.
//!
//! A board is modelled as a matrix of booleans, `Seq<Seq<bool>>`, in which
//! `m[x][y]` tells whether the light in row `x`, column `y` is on. Every
//! contract in this crate is stated over that matrix.
//!
//! A board has no lock of its own. `toggle` takes `&mut self`, so the rules of
//! borrowing already serialise writers; a program that shares one board between
//! threads wraps it in the synchronisation primitive of its choice.

use vstd::prelude::*;

verus! {

/// Number of rows, and of columns, of the board.
pub const SIDE: usize = 8;

/// Number of lights on the board.
pub const CELLS: usize = SIDE * SIDE;

/// What a light shows.
#[derive(Clone, Copy, Debug, PartialEq, Eq, Structural)]
pub enum Sparkle {
    Bright,
    Dim,
}

impl Sparkle {
    /// The sparkle shown by a light that is on (`true`) or off (`false`).
    pub open spec fn of(lit: bool) -> Sparkle {
        if lit {
            Sparkle::Bright
        } else {
            Sparkle::Dim
        }
    }

    /// Bright for a light that is on, dim for one that is off.
    pub fn from_lit(lit: bool) -> (sparkle: Sparkle)
        ensures
            sparkle == Sparkle::of(lit),
    {
        if lit {
            Sparkle::Bright
        } else {
            Sparkle::Dim
        }
    }
}

impl Default for Sparkle {
    /// A light starts out dim.
    fn default() -> (sparkle: Sparkle)
        ensures
            sparkle == Sparkle::Dim,
    {
        Sparkle::Dim
    }
}

/// `(x, y)` names a light of the board.
pub open spec fn in_grid(x: int, y: int) -> bool {
    0 <= x < SIDE && 0 <= y < SIDE
}

/// `m` has the shape of a board: `SIDE` rows of `SIDE` lights.
pub open spec fn is_board(m: Seq<Seq<bool>>) -> bool {
    &&& m.len() == SIDE
    &&& forall|x: int| 0 <= x < SIDE ==> (#[trigger] m[x]).len() == SIDE
}

/// The board on which every light is off.
pub open spec fn dark() -> Seq<Seq<bool>> {
    Seq::new(SIDE as nat, |x: int| Seq::new(SIDE as nat, |y: int| false))
}

/// `m` with the light at `(x, y)` inverted and every other light as it was.
pub open spec fn flip(m: Seq<Seq<bool>>, x: int, y: int) -> Seq<Seq<bool>> {
    m.update(x, m[x].update(y, !m[x][y]))
}

/// Position of the light `(x, y)` when the board is walked row by row.
pub open spec fn slot(x: int, y: int) -> int {
    x * SIDE + y
}

/// Row of the `i`-th light when the board is walked row by row.
pub open spec fn row_of(i: int) -> int {
    i / (SIDE as int)
}

/// Column of the `i`-th light when the board is walked row by row.
pub open spec fn column_of(i: int) -> int {
    i % (SIDE as int)
}

/// The board walked row by row: entry `i` holds the coordinates of the
/// `i`-th light and what it shows.
pub open spec fn snapshot(m: Seq<Seq<bool>>) -> Seq<(usize, usize, Sparkle)> {
    Seq::new(
        CELLS as nat,
        |i: int|
            (
                row_of(i) as usize,
                column_of(i) as usize,
                Sparkle::of(m[row_of(i)][column_of(i)]),
            ),
    )
}

/// The board: `SIDE` rows of `SIDE` lights, all of them off at first.
pub struct Sparkles {
    lights: [[bool; SIDE]; SIDE],
}

impl View for Sparkles {
    type V = Seq<Seq<bool>>;

    closed spec fn view(&self) -> Seq<Seq<bool>> {
        Seq::new(SIDE as nat, |x: int| self.lights[x]@)
    }
}

impl Default for Sparkles {
    /// A fresh board: every light is off, so every light shows dim.
    fn default() -> (board: Sparkles)
        ensures
            board@ == dark(),
            forall|x: int, y: int| in_grid(x, y) ==> board.sparkle_at(x, y) == Sparkle::Dim,
    {
        let board = Sparkles { lights: [[false; SIDE]; SIDE] };
        assert(board@ =~~= dark());
        board
    }
}

impl Sparkles {
    /// Whether the light at `(x, y)` is on.
    pub open spec fn lit(&self, x: int, y: int) -> bool {
        self@[x][y]
    }

    /// What the light at `(x, y)` shows.
    pub open spec fn sparkle_at(&self, x: int, y: int) -> Sparkle {
        Sparkle::of(self@[x][y])
    }

    /// The view of any board has the shape of a board.
    pub proof fn lemma_shape(&self)
        ensures
            is_board(self@),
    {
    }

    /// Inverts the light at row `x`, column `y`, and no other.
    pub fn toggle(&mut self, x: usize, y: usize)
        requires
            x < SIDE,
            y < SIDE,
        ensures
            final(self)@ == flip(old(self)@, x as int, y as int),
    {
        self.lights[x][y] = !self.lights[x][y];
    }

    /// Walks the board row by row and reports, for each light, its
    /// coordinates and what it shows.
    pub fn display(&self) -> (cells: Vec<(usize, usize, Sparkle)>)
        ensures
            cells@ == snapshot(self@),
    {
        let mut cells: Vec<(usize, usize, Sparkle)> = Vec::with_capacity(CELLS);
        for x in 0..SIDE
            invariant
                cells@.len() == x * SIDE,
                forall|i: int| 0 <= i < cells@.len() ==> cells@[i] == snapshot(self@)[i],
        {
            for y in 0..SIDE
                invariant
                    x < SIDE,
                    cells@.len() == slot(x as int, y as int),
                    forall|i: int| 0 <= i < cells@.len() ==> cells@[i] == snapshot(self@)[i],
            {
                cells.push((x, y, Sparkle::from_lit(self.lights[x][y])));
            }
        }
        cells
    }
}

} // verus!
