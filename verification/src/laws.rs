//! What holds of toggling and of walking the board, whatever the board and
//! whatever the light.
//!
//! `Sparkles::toggle` turns a board `m` into `flip(m, x, y)`, and
//! `Sparkles::display` returns `snapshot(m)`; the statements below are about
//! those two functions of the model.

use crate::grid::{dark, flip, in_grid, is_board, slot, snapshot, Sparkle, CELLS};
use vstd::prelude::*;

verus! {

/// The board after the lights named in `cells` have been toggled, one after
/// the other, in the order of the sequence.
pub open spec fn flip_all(m: Seq<Seq<bool>>, cells: Seq<(int, int)>) -> Seq<Seq<bool>>
    decreases cells.len(),
{
    if cells.len() == 0 {
        m
    } else {
        flip(flip_all(m, cells.drop_last()), cells.last().0, cells.last().1)
    }
}

/// How often the light `(x, y)` is named in `cells`.
pub open spec fn visits(cells: Seq<(int, int)>, x: int, y: int) -> nat
    decreases cells.len(),
{
    if cells.len() == 0 {
        0
    } else if cells.last() == (x, y) {
        visits(cells.drop_last(), x, y) + 1
    } else {
        visits(cells.drop_last(), x, y)
    }
}

/// Every entry of `cells` names a light of the board.
pub open spec fn all_in_grid(cells: Seq<(int, int)>) -> bool {
    forall|i: int| 0 <= i < cells.len() ==> in_grid((#[trigger] cells[i]).0, cells[i].1)
}

/// On a fresh board every one of the sixty-four lights shows dim.
pub proof fn lemma_fresh_board_is_dim()
    ensures
        is_board(dark()),
        snapshot(dark()).len() == CELLS,
        forall|i: int| 0 <= i < CELLS ==> (#[trigger] snapshot(dark())[i]).2 == Sparkle::Dim,
{
}

/// Toggling a light once changes what it shows; toggling it a second time
/// brings the whole board back to what it was.
pub proof fn lemma_toggle_twice(m: Seq<Seq<bool>>, x: int, y: int)
    requires
        is_board(m),
        in_grid(x, y),
    ensures
        is_board(flip(m, x, y)),
        Sparkle::of(flip(m, x, y)[x][y]) != Sparkle::of(m[x][y]),
        flip(flip(m, x, y), x, y) == m,
        snapshot(flip(flip(m, x, y), x, y)) == snapshot(m),
{
    assert(flip(flip(m, x, y), x, y) =~~= m);
}

/// Toggling the light `(a, b)` leaves every other light `(c, d)` as it was.
pub proof fn lemma_toggle_leaves_others(m: Seq<Seq<bool>>, a: int, b: int, c: int, d: int)
    requires
        is_board(m),
        in_grid(a, b),
        in_grid(c, d),
        (c, d) != (a, b),
    ensures
        flip(m, a, b)[c][d] == m[c][d],
        snapshot(flip(m, a, b))[slot(c, d)] == snapshot(m)[slot(c, d)],
{
}

/// A walk of the board reports sixty-four lights, and the light `(x, y)`
/// exactly once among them: at position `slot(x, y)` and nowhere else.
pub proof fn lemma_snapshot_covers(m: Seq<Seq<bool>>, x: int, y: int)
    requires
        in_grid(x, y),
    ensures
        snapshot(m).len() == CELLS,
        0 <= slot(x, y) < CELLS,
        snapshot(m)[slot(x, y)] == (x as usize, y as usize, Sparkle::of(m[x][y])),
        forall|i: int|
            0 <= i < CELLS && (#[trigger] snapshot(m)[i]).0 == x && snapshot(m)[i].1 == y ==> i
                == slot(x, y),
{
}

/// After any run of toggles a light differs from what it was exactly when it
/// was toggled an odd number of times.
pub proof fn lemma_parity(m: Seq<Seq<bool>>, cells: Seq<(int, int)>, x: int, y: int)
    requires
        is_board(m),
        all_in_grid(cells),
        in_grid(x, y),
    ensures
        is_board(flip_all(m, cells)),
        flip_all(m, cells)[x][y] == (m[x][y] != (visits(cells, x, y) % 2 == 1)),
    decreases cells.len(),
{
    if cells.len() > 0 {
        lemma_parity(m, cells.drop_last(), x, y);
    }
}

/// After any run of toggles on a fresh board, the bright lights are those
/// that were toggled an odd number of times.
pub proof fn lemma_bright_iff_odd(cells: Seq<(int, int)>, x: int, y: int)
    requires
        all_in_grid(cells),
        in_grid(x, y),
    ensures
        Sparkle::of(flip_all(dark(), cells)[x][y]) == Sparkle::Bright <==> visits(cells, x, y) % 2
            == 1,
{
    lemma_parity(dark(), cells, x, y);
}

/// Toggling one light `n` times in a row, in whatever way the `n` calls were
/// put in order, leaves it changed if `n` is odd and unchanged if `n` is even.
pub proof fn lemma_toggle_n_times(m: Seq<Seq<bool>>, x: int, y: int, n: nat)
    requires
        is_board(m),
        in_grid(x, y),
    ensures
        visits(Seq::new(n, |i: int| (x, y)), x, y) == n,
        flip_all(m, Seq::new(n, |i: int| (x, y)))[x][y] == (m[x][y] != (n % 2 == 1)),
    decreases n,
{
    let cells = Seq::new(n, |i: int| (x, y));
    if n > 0 {
        lemma_toggle_n_times(m, x, y, (n - 1) as nat);
        assert(cells.drop_last() =~= Seq::new((n - 1) as nat, |i: int| (x, y)));
    }
    lemma_parity(m, cells, x, y);
}

} // verus!
