//! The random draws the engine makes, from one seedable generator.
use vstd::prelude::*;

use rand::rngs::StdRng;

verus! {

/// The seedable generator that every random decision draws from.
#[verifier::external_type_specification]
#[verifier::external_body]
pub struct ExStdRng(rand::rngs::StdRng);

/// Relies on `rand::Rng::gen_range` over `lo..hi`: a value in the half-open
/// range (it panics on an empty range, which `requires` rules out).
#[verifier::external_body]
pub(crate) fn draw_range(rng: &mut StdRng, lo: u64, hi: u64) -> (r: u64)
    requires
        lo < hi,
    ensures
        lo <= r < hi,
{
    rand::Rng::gen_range(rng, lo..hi)
}

/// Relies on `rand::Rng::gen_ratio`: true with chance `num/den`, always true when
/// `num == den` and always false when `num == 0` (it panics when `den == 0` or
/// `num > den`, which `requires` rules out).
#[verifier::external_body]
pub(crate) fn draw_ratio(rng: &mut StdRng, num: u32, den: u32) -> (r: bool)
    requires
        0 < den,
        num <= den,
    ensures
        num == 0 ==> !r,
        num == den ==> r,
{
    rand::Rng::gen_ratio(rng, num, den)
}

} // verus!
