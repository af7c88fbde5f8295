//! The random source. Every draw comes from a `rand::rngs::SmallRng` that the
//! caller owns; nothing is proved of these calls, and each states only what
//! holds of every outcome.
use vstd::prelude::*;
use rand::rngs::SmallRng;
use rand::seq::SliceRandom;
use rand::Rng;

verus! {

/// The generator `rand::rngs::SmallRng`, held and handed on as it is:
/// nothing is known of what is inside.
#[verifier::external_type_specification]
#[verifier::external_body]
pub struct ExSmallRng(SmallRng);

/// Calls `rand::Rng::gen_range` on two `usize` bounds. The result is drawn
/// from the half-open range and lies in it; the call panics on an empty
/// range, which the precondition leaves out.
#[verifier::external_body]
pub(crate) fn draw_below(rng: &mut SmallRng, low: usize, high: usize) -> (r: usize)
    requires
        low < high,
    ensures
        low <= r < high,
{
    rng.gen_range(low, high)
}

/// Calls `rand::Rng::gen` for a `bool`: either value may come back.
#[verifier::external_body]
pub(crate) fn draw_bool(rng: &mut SmallRng) -> (r: bool) {
    rng.gen::<bool>()
}

/// Calls `rand::seq::SliceRandom::choose` on the slice of `items`: `None` if
/// and only if there are no items, else one of them.
#[verifier::external_body]
pub(crate) fn choose_item(rng: &mut SmallRng, items: &Vec<usize>) -> (r: Option<usize>)
    ensures
        r is None <==> items@.len() == 0,
        r matches Some(x) ==> items@.contains(x),
{
    items.as_slice().choose(rng).copied()
}

} // verus!
