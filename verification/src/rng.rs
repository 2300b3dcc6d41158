//! What the engine assumes of the `oorandom` generator it draws from.

use oorandom::Rand32;
use std::ops::Range;
use vstd::prelude::*;

verus! {

/// `oorandom::Rand32`, a seeded 32-bit generator. Its state is opaque to the
/// engine, which only carries it along and draws from it.
#[verifier::external_type_specification]
#[verifier::external_body]
pub struct ExRand32(Rand32);

/// `oorandom::Rand32::new` builds a generator from a seed. Nothing is
/// claimed of the generator it returns.
pub assume_specification[ Rand32::new ](seed: u64) -> (rng: Rand32)
;

/// `oorandom::Rand32::rand_range` draws a number from a half-open range.
/// Assumed: for a non-empty range the draw lies in the range, lower bound
/// included and upper bound excluded. Which number is drawn is left open.
pub assume_specification[ Rand32::rand_range ](rng: &mut Rand32, range: Range<u32>) -> (r: u32)
    requires
        range.start < range.end,
    ensures
        range.start <= r < range.end,
;

} // verus!
