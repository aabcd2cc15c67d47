//! The random source behind the jitter, drawn from `fastrand`.

use vstd::prelude::*;

verus! {

#[verifier::external_type_specification]
#[verifier::external_body]
pub struct ExRng(fastrand::Rng);

/// Relies on `fastrand::Rng::new`: a generator seeded from the thread's own
/// generator, so that each call gives an independent stream.
#[verifier::external_body]
pub(crate) fn fresh_rng() -> fastrand::Rng {
    fastrand::Rng::new()
}

/// Relies on `fastrand::Rng::i64`: on a non-empty inclusive range it returns a
/// value inside that range (it panics only on an empty one).
#[verifier::external_body]
pub(crate) fn draw_between(rng: &mut fastrand::Rng, low: i64, high: i64) -> (r: i64)
    requires
        low <= high,
    ensures
        low <= r <= high,
{
    rng.i64(low..=high)
}

} // verus!
