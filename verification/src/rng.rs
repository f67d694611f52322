//! The one place the game touches a random number generator.

use vstd::prelude::*;
use rand::Rng;

verus! {

/// Relies on `rand::Rng::gen_range` over the inclusive range `min..=max`:
/// it panics on an empty range and otherwise returns a uniformly distributed
/// value within the range.  Nothing beyond membership in the range can be
/// promised of a random draw.
#[verifier::external_body]
pub(crate) fn draw_uniform(min: i32, max: i32) -> (r: i32)
    requires
        min <= max,
    ensures
        min <= r <= max,
{
    rand::thread_rng().gen_range(min..=max)
}

} // verus!
