use vstd::prelude::*;

use crate::bounded::Bounded;
use crate::ranged::{Boundary, ValueRange};
use crate::rng::fresh_rng;
use crate::sample::Sample;

verus! {

/// Whether the integer `v` lies between the two bounds `a` and `b`, both
/// included, whichever order the bounds come in.
pub open spec fn within_unordered<X: Sample>(a: X, b: X, v: int) -> bool {
    if a.as_int() <= b.as_int() {
        a.as_int() <= v <= b.as_int()
    } else {
        b.as_int() <= v <= a.as_int()
    }
}

/// The unordered-pair reading of two bounds does not depend on the order
/// in which the bounds are given: a value lies between `a` and `b` exactly
/// when it lies between `b` and `a`.
pub proof fn lemma_within_unordered_symmetric<X: Sample>(a: X, b: X, v: int)
    ensures
        within_unordered(a, b, v) == within_unordered(b, a, v),
{
}

/// Generate a random value in the range [`min`, `max_exclusive`) with a new
/// lazily-initialized thread-local random number generator.
pub fn random_exclusively<X: Sample>(min: X, max_exclusive: X) -> (r: X)
    requires
        min.as_int() < max_exclusive.as_int(),
    ensures
        min.as_int() <= r.as_int() < max_exclusive.as_int(),
{
    let mut rng = fresh_rng();
    random_exclusively_with_rng(min, max_exclusive, &mut rng)
}

/// Generate a random value in the range [`min`, `max_exclusive`) with an
/// existing random number generator.
pub fn random_exclusively_with_rng<X: Sample>(
    min: X,
    max_exclusive: X,
    rng: &mut rand::rngs::ThreadRng,
) -> (r: X)
    requires
        min.as_int() < max_exclusive.as_int(),
    ensures
        min.as_int() <= r.as_int() < max_exclusive.as_int(),
{
    X::sample_exclusive(min, max_exclusive, rng)
}

/// Generate a random value in the range [`min`, `max_inclusive`] with a new
/// lazily-initialized thread-local random number generator.
pub fn random_inclusively<X: Sample>(min: X, max_inclusive: X) -> (r: X)
    requires
        min.as_int() <= max_inclusive.as_int(),
    ensures
        min.as_int() <= r.as_int() <= max_inclusive.as_int(),
{
    let mut rng = fresh_rng();
    random_inclusively_with_rng(min, max_inclusive, &mut rng)
}

/// Generate a random value in the range [`min`, `max_inclusive`] with an
/// existing random number generator.
pub fn random_inclusively_with_rng<X: Sample>(
    min: X,
    max_inclusive: X,
    rng: &mut rand::rngs::ThreadRng,
) -> (r: X)
    requires
        min.as_int() <= max_inclusive.as_int(),
    ensures
        min.as_int() <= r.as_int() <= max_inclusive.as_int(),
{
    X::sample_inclusive(min, max_inclusive, rng)
}

/// Generate a random value in the range [`a`, `b`] or [`b`, `a`] with a new
/// lazily-initialized thread-local random number generator. The two values
/// need not be ordered; equal values come back unchanged.
pub fn random_inclusively_cmp<X: Sample>(a: X, b: X) -> (r: X)
    ensures
        within_unordered(a, b, r.as_int()),
        a.as_int() == b.as_int() ==> r == a,
{
    let mut rng = fresh_rng();
    random_inclusively_cmp_with_rng(a, b, &mut rng)
}

/// Generate a random value in the range [`a`, `b`] or [`b`, `a`] with an
/// existing random number generator. The two values need not be ordered;
/// equal values come back unchanged.
pub fn random_inclusively_cmp_with_rng<X: Sample>(
    a: X,
    b: X,
    rng: &mut rand::rngs::ThreadRng,
) -> (r: X)
    ensures
        within_unordered(a, b, r.as_int()),
        a.as_int() == b.as_int() ==> r == a,
{
    if a.leq(b) {
        if b.leq(a) {
            a
        } else {
            random_inclusively_with_rng(a, b, rng)
        }
    } else {
        random_inclusively_with_rng(b, a, rng)
    }
}

/// Generate a random value in the natural range of the output type with a
/// new lazily-initialized thread-local random number generator.
pub fn random<X: Sample + Bounded>() -> (r: X)
    ensures
        X::min_spec().as_int() <= r.as_int() <= X::max_spec().as_int(),
{
    let mut rng = fresh_rng();
    random_with_rng(&mut rng)
}

/// Generate a random value in the natural range of the output type with an
/// existing random number generator.
pub fn random_with_rng<X: Sample + Bounded>(rng: &mut rand::rngs::ThreadRng) -> (r: X)
    ensures
        X::min_spec().as_int() <= r.as_int() <= X::max_spec().as_int(),
{
    proof {
        X::value_in_bounds(X::min_spec());
    }
    random_inclusively_with_rng(X::min_value(), X::max_value(), rng)
}

/// Generate a random value in the range [`min`, `X::max_value()`] with a new
/// lazily-initialized thread-local random number generator.
pub fn random_at_least<X: Sample + Bounded>(min: X) -> (r: X)
    ensures
        min.as_int() <= r.as_int() <= X::max_spec().as_int(),
{
    let mut rng = fresh_rng();
    random_at_least_with_rng(min, &mut rng)
}

/// Generate a random value in the range [`min`, `X::max_value()`] with an
/// existing random number generator.
pub fn random_at_least_with_rng<X: Sample + Bounded>(
    min: X,
    rng: &mut rand::rngs::ThreadRng,
) -> (r: X)
    ensures
        min.as_int() <= r.as_int() <= X::max_spec().as_int(),
{
    proof {
        X::value_in_bounds(min);
    }
    random_inclusively_with_rng(min, X::max_value(), rng)
}

/// Generate a random value in the range [`X::min_value()`, `max_inclusive`]
/// with a new lazily-initialized thread-local random number generator.
pub fn random_at_most<X: Sample + Bounded>(max_inclusive: X) -> (r: X)
    ensures
        X::min_spec().as_int() <= r.as_int() <= max_inclusive.as_int(),
{
    let mut rng = fresh_rng();
    random_at_most_with_rng(max_inclusive, &mut rng)
}

/// Generate a random value in the range [`X::min_value()`, `max_inclusive`]
/// with an existing random number generator.
pub fn random_at_most_with_rng<X: Sample + Bounded>(
    max_inclusive: X,
    rng: &mut rand::rngs::ThreadRng,
) -> (r: X)
    ensures
        X::min_spec().as_int() <= r.as_int() <= max_inclusive.as_int(),
{
    proof {
        X::value_in_bounds(max_inclusive);
    }
    random_inclusively_with_rng(X::min_value(), max_inclusive, rng)
}

/// Generate a random value in the range [`X::min_value()`, `max_exclusive`)
/// with a new lazily-initialized thread-local random number generator.
pub fn random_at_most_exclusively<X: Sample + Bounded>(max_exclusive: X) -> (r: X)
    requires
        X::min_spec().as_int() < max_exclusive.as_int(),
    ensures
        X::min_spec().as_int() <= r.as_int() < max_exclusive.as_int(),
{
    let mut rng = fresh_rng();
    random_at_most_exclusively_with_rng(max_exclusive, &mut rng)
}

/// Generate a random value in the range [`X::min_value()`, `max_exclusive`)
/// with an existing random number generator.
pub fn random_at_most_exclusively_with_rng<X: Sample + Bounded>(
    max_exclusive: X,
    rng: &mut rand::rngs::ThreadRng,
) -> (r: X)
    requires
        X::min_spec().as_int() < max_exclusive.as_int(),
    ensures
        X::min_spec().as_int() <= r.as_int() < max_exclusive.as_int(),
{
    random_exclusively_with_rng(X::min_value(), max_exclusive, rng)
}

/// Generate a random value in a specific range with a new lazily-initialized
/// thread-local random number generator. The start boundary may not be
/// exclusive, and the range may not be empty.
pub fn random_ranged<X: Sample + Bounded>(range: ValueRange<X>) -> (r: X)
    requires
        range.start_included(),
        range.nonempty(),
    ensures
        range.contains(r.as_int()),
{
    let mut rng = fresh_rng();
    random_ranged_with_rng(range, &mut rng)
}

/// Generate a random value in a specific range with an existing random
/// number generator. The start boundary may not be exclusive, and the range
/// may not be empty.
pub fn random_ranged_with_rng<X: Sample + Bounded>(
    range: ValueRange<X>,
    rng: &mut rand::rngs::ThreadRng,
) -> (r: X)
    requires
        range.start_included(),
        range.nonempty(),
    ensures
        range.contains(r.as_int()),
{
    match range.start {
        Boundary::Excluded(_) => unreached(),
        Boundary::Included(min) => {
            match range.end {
                Boundary::Excluded(max_exclusive) => {
                    random_exclusively_with_rng(min, max_exclusive, rng)
                },
                Boundary::Included(max_inclusive) => {
                    random_inclusively_with_rng(min, max_inclusive, rng)
                },
                Boundary::Unbounded => random_at_least_with_rng(min, rng),
            }
        },
        Boundary::Unbounded => {
            match range.end {
                Boundary::Excluded(max_exclusive) => {
                    random_at_most_exclusively_with_rng(max_exclusive, rng)
                },
                Boundary::Included(max_inclusive) => {
                    random_at_most_with_rng(max_inclusive, rng)
                },
                Boundary::Unbounded => random_with_rng(rng),
            }
        },
    }
}

} // verus!
