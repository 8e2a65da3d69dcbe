//! Draws from the thread-local generator of `rand`.

use vstd::prelude::*;

verus! {

/// Relies on `rand::Rng::random_range` over `rand::rng()`: for a non-empty
/// range `lo..hi` it returns a value `r` with `lo <= r < hi`; it panics on an
/// empty range, which `requires` leaves out.
#[verifier::external_body]
pub(crate) fn random_in_range(lo: u32, hi: u32) -> (r: u32)
    requires
        lo < hi,
    ensures
        lo <= r < hi,
{
    rand::Rng::random_range(&mut rand::rng(), lo..hi)
}

/// Relies on `rand::distr::Uniform` built from `0..=255` and sampled with
/// `rand::rng()`: one colour channel, any value of `u8`.
#[verifier::external_body]
pub(crate) fn random_channel() -> (r: u8) {
    let die = rand::distr::Uniform::try_from(0..=255u8).unwrap();
    rand::distr::Distribution::sample(&die, &mut rand::rng())
}

} // verus!
