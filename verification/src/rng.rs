use vstd::prelude::*;

verus! {

/// The generator used when the caller does not supply one: the lazily
/// initialized thread-local generator of the `rand` crate. Declared so
/// that signatures of this crate can carry it; its inside stays opaque.
#[verifier::external_type_specification]
#[verifier::external_body]
pub struct ExThreadRng(rand::rngs::ThreadRng);

/// Relies on rand::thread_rng: obtains the thread-local generator.
#[verifier::external_body]
pub(crate) fn fresh_rng() -> rand::rngs::ThreadRng {
    rand::thread_rng()
}

/// Relies on rand's Uniform::new_inclusive and Distribution::sample:
/// for low <= high the sample lies in the inclusive range [low, high].
#[verifier::external_body]
pub(crate) fn sample_u128_inclusive(
    min: u128,
    max: u128,
    rng: &mut rand::rngs::ThreadRng,
) -> (r: u128)
    requires
        min <= max,
    ensures
        min <= r <= max,
{
    rand::distributions::Distribution::sample(
        &rand::distributions::Uniform::new_inclusive(min, max),
        rng,
    )
}

/// Relies on rand's Uniform::new and Distribution::sample:
/// for low < high the sample lies in the half-open range [low, high).
#[verifier::external_body]
pub(crate) fn sample_u128_exclusive(
    min: u128,
    max: u128,
    rng: &mut rand::rngs::ThreadRng,
) -> (r: u128)
    requires
        min < max,
    ensures
        min <= r < max,
{
    rand::distributions::Distribution::sample(
        &rand::distributions::Uniform::new(min, max),
        rng,
    )
}

/// Relies on rand's Uniform::new_inclusive and Distribution::sample:
/// for low <= high the sample lies in the inclusive range [low, high].
#[verifier::external_body]
pub(crate) fn sample_i128_inclusive(
    min: i128,
    max: i128,
    rng: &mut rand::rngs::ThreadRng,
) -> (r: i128)
    requires
        min <= max,
    ensures
        min <= r <= max,
{
    rand::distributions::Distribution::sample(
        &rand::distributions::Uniform::new_inclusive(min, max),
        rng,
    )
}

/// Relies on rand's Uniform::new and Distribution::sample:
/// for low < high the sample lies in the half-open range [low, high).
#[verifier::external_body]
pub(crate) fn sample_i128_exclusive(
    min: i128,
    max: i128,
    rng: &mut rand::rngs::ThreadRng,
) -> (r: i128)
    requires
        min < max,
    ensures
        min <= r < max,
{
    rand::distributions::Distribution::sample(
        &rand::distributions::Uniform::new(min, max),
        rng,
    )
}

} // verus!
