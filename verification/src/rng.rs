//! The calls into `rand` that the workload generator and the producer make.

use vstd::prelude::*;

use rand::rngs::{StdRng, ThreadRng};
use rand::{Rng, SeedableRng};

verus! {

#[verifier::external_type_specification]
#[verifier::external_body]
pub struct ExStdRng(StdRng);

#[verifier::external_type_specification]
#[verifier::external_body]
pub struct ExThreadRng(ThreadRng);

/// `rand::SeedableRng::seed_from_u64` for `StdRng`: a generator whose stream is
/// fixed by `seed`. Nothing is stated of the generator, which Verus cannot see into.
#[verifier::external_body]
pub(crate) fn seeded_rng(seed: u64) -> StdRng {
    StdRng::seed_from_u64(seed)
}

/// `rand::Rng::gen_range` over `u64` with the inclusive range `lo..=hi`. Claims only
/// that the draw lies in the range; it panics on an empty range, which `requires`
/// leaves out.
#[verifier::external_body]
pub(crate) fn gen_range_u64(rng: &mut StdRng, lo: u64, hi: u64) -> (r: u64)
    requires
        lo <= hi,
    ensures
        lo <= r <= hi,
{
    rng.gen_range(lo..=hi)
}

/// `rand::Rng::gen_range` over `u8` with the inclusive range `lo..=hi`: the draw lies
/// in the range. It panics on an empty range, which `requires` leaves out.
#[verifier::external_body]
pub(crate) fn gen_range_u8(rng: &mut StdRng, lo: u8, hi: u8) -> (r: u8)
    requires
        lo <= hi,
    ensures
        lo <= r <= hi,
{
    rng.gen_range(lo..=hi)
}

/// `rand::Rng::gen_ratio`: `true` with probability `numerator / denominator`. The
/// documentation guarantees `false` for a zero numerator and `true` when numerator and
/// denominator are equal; it panics for a zero denominator or a numerator above the
/// denominator, which `requires` leaves out. Which value comes out otherwise is chance.
#[verifier::external_body]
pub(crate) fn gen_ratio(rng: &mut StdRng, numerator: u32, denominator: u32) -> (r: bool)
    requires
        0 < denominator,
        numerator <= denominator,
    ensures
        numerator == 0 ==> !r,
        numerator == denominator ==> r,
{
    rng.gen_ratio(numerator, denominator)
}

/// `rand::Rng::gen_range` over `i32` with the inclusive range `lo..=hi`, on a
/// thread-local generator: the draw lies in the range. It panics on an empty range,
/// which `requires` leaves out.
#[verifier::external_body]
pub(crate) fn gen_range_i32(rng: &mut ThreadRng, lo: i32, hi: i32) -> (r: i32)
    requires
        lo <= hi,
    ensures
        lo <= r <= hi,
{
    rng.gen_range(lo..=hi)
}

} // verus!
