use vstd::prelude::*;

verus! {

/// Relies on nannou::rand::random_range: for `min < max` it draws from the
/// thread-local generator a value in `[min, max)`.
#[verifier::external_body]
pub(crate) fn random_range(min: i64, max: i64) -> (r: i64)
    requires
        min < max,
    ensures
        min <= r < max,
{
    nannou::rand::random_range(min, max)
}

/// Relies on nannou::rand::random: a coin flip from the thread-local generator.
#[verifier::external_body]
pub(crate) fn random_coin() -> (r: bool) {
    nannou::rand::random::<bool>()
}

} // verus!
