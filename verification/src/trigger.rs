//! The trigger of a fault.
//!
//! A fault with a percentage fires for a request where the request matches
//! and the percentage is above a number drawn evenly from 0 to 99.

use rand::Rng;
use vstd::prelude::*;

verus! {

/// Whether a fault with this percentage fires, given whether the request
/// matches and the number that was drawn.
pub open spec fn fires(percentage: u8, matches: bool, drawn: u8) -> bool {
    matches && percentage > drawn
}

/// Draws a number with `rand::Rng::gen_range` from the range `0..100`.
#[verifier::external_body]
pub(crate) fn draw() -> (drawn: u8)
    ensures
        drawn < 100,
{
    rand::thread_rng().gen_range(0..100)
}

/// Draws a boolean with `rand::Rng::gen_ratio`, one in two.
#[verifier::external_body]
pub(crate) fn flip() -> bool {
    rand::thread_rng().gen_ratio(1, 2)
}

/// Whether a fault with this percentage fires for the number `drawn`.
pub fn triggers(percentage: u8, matches: bool, drawn: u8) -> (fired: bool)
    ensures
        fired == fires(percentage, matches, drawn),
{
    matches && percentage > drawn
}

/// Decides whether a fault with this percentage fires: a number is drawn and
/// the fault fires where the request matches and the percentage is above it.
/// A request that does not match never fires, nor does the percentage 0; with
/// 100 or more every matching request fires.
pub fn should_trigger(percentage: u8, matches: bool) -> (fired: bool)
    ensures
        exists|drawn: u8| drawn < 100 && fired == #[trigger] fires(percentage, matches, drawn),
        !matches ==> !fired,
        percentage == 0 ==> !fired,
        matches && percentage >= 100 ==> fired,
{
    let drawn = draw();
    let fired = triggers(percentage, matches, drawn);
    assert(fired == fires(percentage, matches, drawn));
    fired
}

} // verus!
