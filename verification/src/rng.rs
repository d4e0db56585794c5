//! Access to the process random number generator, used when a pass
//! generates its sampling kernel and noise texture. Nothing can be promised
//! about a random value beyond its range, so every consumer of these values
//! is verified for every value in that range.

use vstd::prelude::*;

verus! {

#[verifier::external_type_specification]
#[verifier::external_body]
pub struct ExThreadRng(rand::rngs::ThreadRng);

/// Relies on rand::thread_rng: a handle to the lazily-initialized
/// thread-local generator; it cannot fail.
#[verifier::external_body]
pub(crate) fn new_thread_rng() -> rand::rngs::ThreadRng {
    rand::thread_rng()
}

/// Relies on rand::Rng::gen_range over the half-open range `lo..hi`: it
/// panics only on an empty range and returns a value of the range.
#[verifier::external_body]
pub(crate) fn gen_range_i64(rng: &mut rand::rngs::ThreadRng, lo: i64, hi: i64) -> (r: i64)
    requires
        lo < hi,
    ensures
        lo <= r < hi,
{
    rand::Rng::gen_range(rng, lo..hi)
}

/// Relies on rand::Rng::gen_range over the half-open range `lo..hi` of
/// bytes: it panics only on an empty range and returns a value of the range.
#[verifier::external_body]
pub(crate) fn gen_range_u8(rng: &mut rand::rngs::ThreadRng, lo: u8, hi: u8) -> (r: u8)
    requires
        lo < hi,
    ensures
        lo <= r < hi,
{
    rand::Rng::gen_range(rng, lo..hi)
}

} // verus!
