//! The two places where the crate asks `rand` for a random value.
//!
//! Nothing here is proved: the contracts restate what `rand` documents, and
//! the rest of the crate is verified against them.
//!
//! Both functions draw from `rand::thread_rng`, which seeds itself from the
//! operating system on first use in a thread and panics if that source fails.
//! No argument can rule this out, so no contract mentions it.

use rand::seq::SliceRandom;
use rand::Rng;
use vstd::prelude::*;

verus! {

/// Calls `rand::Rng::gen_range` with the range `low..high` on the generator
/// that `rand::thread_rng` hands out.
///
/// `gen_range` panics on an empty range, hence the `requires`. Of the result
/// the contract claims only what holds of every draw: it lies in the range.
#[verifier::external_body]
pub(crate) fn uniform(low: u64, high: u64) -> (drawn: u64)
    requires
        low < high,
    ensures
        low <= drawn < high,
{
    rand::thread_rng().gen_range(low..high)
}

/// Calls `rand::seq::SliceRandom::choose` on `items` with the generator that
/// `rand::thread_rng` hands out, and copies the chosen element.
///
/// `choose` returns `None` for an empty slice and otherwise a reference to
/// one of the slice's elements; which one is left open.
#[verifier::external_body]
pub(crate) fn pick_one(items: &[u32]) -> (picked: Option<u32>)
    ensures
        items@.len() == 0 ==> picked is None,
        items@.len() > 0 ==> picked is Some && items@.contains(picked->0),
{
    items.choose(&mut rand::thread_rng()).copied()
}

} // verus!
