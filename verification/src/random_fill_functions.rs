use vstd::prelude::*;

use crate::bounded::Bounded;
use crate::random_functions::within_unordered;
use crate::ranged::{Boundary, ValueRange};
use crate::rng::fresh_rng;
use crate::sample::Sample;

verus! {

/// Overwrite every slot of `out` with a value drawn by `X::sample_inclusive`
/// from [`min`, `max`], keeping the length; each slot is drawn on its own.
fn fill_inclusive<X: Sample>(
    out: &mut Vec<X>,
    min: X,
    max: X,
    rng: &mut rand::rngs::ThreadRng,
)
    requires
        min.as_int() <= max.as_int(),
    ensures
        final(out).len() == old(out).len(),
        forall|i: int|
            0 <= i < final(out).len() ==> min.as_int() <= #[trigger] final(out)[i].as_int()
                <= max.as_int(),
{
    let n = out.len();
    out.clear();
    let mut k: usize = 0;
    while k < n
        invariant
            min.as_int() <= max.as_int(),
            k <= n,
            out.len() == k,
            forall|i: int|
                0 <= i < k ==> min.as_int() <= #[trigger] out[i].as_int() <= max.as_int(),
        decreases n - k,
    {
        let v = X::sample_inclusive(min, max, rng);
        out.push(v);
        k = k + 1;
    }
}

/// Overwrite every slot of `out` with a value drawn by `X::sample_exclusive`
/// from [`min`, `max`), keeping the length; each slot is drawn on its own.
fn fill_exclusive<X: Sample>(
    out: &mut Vec<X>,
    min: X,
    max: X,
    rng: &mut rand::rngs::ThreadRng,
)
    requires
        min.as_int() < max.as_int(),
    ensures
        final(out).len() == old(out).len(),
        forall|i: int|
            0 <= i < final(out).len() ==> min.as_int() <= #[trigger] final(out)[i].as_int()
                < max.as_int(),
{
    let n = out.len();
    out.clear();
    let mut k: usize = 0;
    while k < n
        invariant
            min.as_int() < max.as_int(),
            k <= n,
            out.len() == k,
            forall|i: int|
                0 <= i < k ==> min.as_int() <= #[trigger] out[i].as_int() < max.as_int(),
        decreases n - k,
    {
        let v = X::sample_exclusive(min, max, rng);
        out.push(v);
        k = k + 1;
    }
}

/// Generate random values in the range [`min`, `max_exclusive`) with a new
/// lazily-initialized thread-local random number generator.
pub fn random_fill_exclusively<X: Sample>(out: &mut Vec<X>, min: X, max_exclusive: X)
    requires
        min.as_int() < max_exclusive.as_int(),
    ensures
        final(out).len() == old(out).len(),
        forall|i: int|
            0 <= i < final(out).len() ==> min.as_int() <= #[trigger] final(out)[i].as_int()
                < max_exclusive.as_int(),
{
    let mut rng = fresh_rng();
    random_fill_exclusively_with_rng(out, min, max_exclusive, &mut rng)
}

/// Generate random values in the range [`min`, `max_exclusive`) with an
/// existing random number generator.
pub fn random_fill_exclusively_with_rng<X: Sample>(
    out: &mut Vec<X>,
    min: X,
    max_exclusive: X,
    rng: &mut rand::rngs::ThreadRng,
)
    requires
        min.as_int() < max_exclusive.as_int(),
    ensures
        final(out).len() == old(out).len(),
        forall|i: int|
            0 <= i < final(out).len() ==> min.as_int() <= #[trigger] final(out)[i].as_int()
                < max_exclusive.as_int(),
{
    fill_exclusive(out, min, max_exclusive, rng)
}

/// Generate random values in the range [`min`, `max_inclusive`] with a new
/// lazily-initialized thread-local random number generator.
pub fn random_fill_inclusively<X: Sample>(out: &mut Vec<X>, min: X, max_inclusive: X)
    requires
        min.as_int() <= max_inclusive.as_int(),
    ensures
        final(out).len() == old(out).len(),
        forall|i: int|
            0 <= i < final(out).len() ==> min.as_int() <= #[trigger] final(out)[i].as_int()
                <= max_inclusive.as_int(),
{
    let mut rng = fresh_rng();
    random_fill_inclusively_with_rng(out, min, max_inclusive, &mut rng)
}

/// Generate random values in the range [`min`, `max_inclusive`] with an
/// existing random number generator.
pub fn random_fill_inclusively_with_rng<X: Sample>(
    out: &mut Vec<X>,
    min: X,
    max_inclusive: X,
    rng: &mut rand::rngs::ThreadRng,
)
    requires
        min.as_int() <= max_inclusive.as_int(),
    ensures
        final(out).len() == old(out).len(),
        forall|i: int|
            0 <= i < final(out).len() ==> min.as_int() <= #[trigger] final(out)[i].as_int()
                <= max_inclusive.as_int(),
{
    fill_inclusive(out, min, max_inclusive, rng)
}

/// Generate random values in the range [`a`, `b`] or [`b`, `a`] with a new
/// lazily-initialized thread-local random number generator. The two values
/// need not be ordered; when they are equal every slot becomes that value.
pub fn random_fill_inclusively_cmp<X: Sample>(out: &mut Vec<X>, a: X, b: X)
    ensures
        final(out).len() == old(out).len(),
        forall|i: int|
            0 <= i < final(out).len() ==> within_unordered(
                a,
                b,
                #[trigger] final(out)[i].as_int(),
            ),
        a.as_int() == b.as_int() ==> forall|i: int|
            0 <= i < final(out).len() ==> #[trigger] final(out)[i] == a,
{
    let mut rng = fresh_rng();
    random_fill_inclusively_cmp_with_rng(out, a, b, &mut rng)
}

/// Generate random values in the range [`a`, `b`] or [`b`, `a`] with an
/// existing random number generator. The two values need not be ordered;
/// when they are equal every slot becomes that value.
pub fn random_fill_inclusively_cmp_with_rng<X: Sample>(
    out: &mut Vec<X>,
    a: X,
    b: X,
    rng: &mut rand::rngs::ThreadRng,
)
    ensures
        final(out).len() == old(out).len(),
        forall|i: int|
            0 <= i < final(out).len() ==> within_unordered(
                a,
                b,
                #[trigger] final(out)[i].as_int(),
            ),
        a.as_int() == b.as_int() ==> forall|i: int|
            0 <= i < final(out).len() ==> #[trigger] final(out)[i] == a,
{
    if a.leq(b) {
        if b.leq(a) {
            let n = out.len();
            out.clear();
            let mut k: usize = 0;
            while k < n
                invariant
                    k <= n,
                    out.len() == k,
                    forall|i: int| 0 <= i < k ==> #[trigger] out[i] == a,
                decreases n - k,
            {
                out.push(a);
                k = k + 1;
            }
        } else {
            fill_inclusive(out, a, b, rng)
        }
    } else {
        fill_inclusive(out, b, a, rng)
    }
}

/// Generate random values in the natural range of the element type with a
/// new lazily-initialized thread-local random number generator.
pub fn random_fill<X: Sample + Bounded>(out: &mut Vec<X>)
    ensures
        final(out).len() == old(out).len(),
        forall|i: int|
            0 <= i < final(out).len() ==> X::min_spec().as_int()
                <= #[trigger] final(out)[i].as_int() <= X::max_spec().as_int(),
{
    let mut rng = fresh_rng();
    random_fill_with_rng(out, &mut rng)
}

/// Generate random values in the natural range of the element type with an
/// existing random number generator.
pub fn random_fill_with_rng<X: Sample + Bounded>(out: &mut Vec<X>, rng: &mut rand::rngs::ThreadRng)
    ensures
        final(out).len() == old(out).len(),
        forall|i: int|
            0 <= i < final(out).len() ==> X::min_spec().as_int()
                <= #[trigger] final(out)[i].as_int() <= X::max_spec().as_int(),
{
    proof {
        X::value_in_bounds(X::min_spec());
    }
    fill_inclusive(out, X::min_value(), X::max_value(), rng)
}

/// Generate random values in the range [`min`, `X::max_value()`] with a new
/// lazily-initialized thread-local random number generator.
pub fn random_fill_at_least<X: Sample + Bounded>(out: &mut Vec<X>, min: X)
    ensures
        final(out).len() == old(out).len(),
        forall|i: int|
            0 <= i < final(out).len() ==> min.as_int() <= #[trigger] final(out)[i].as_int()
                <= X::max_spec().as_int(),
{
    let mut rng = fresh_rng();
    random_fill_at_least_with_rng(out, min, &mut rng)
}

/// Generate random values in the range [`min`, `X::max_value()`] with an
/// existing random number generator.
pub fn random_fill_at_least_with_rng<X: Sample + Bounded>(
    out: &mut Vec<X>,
    min: X,
    rng: &mut rand::rngs::ThreadRng,
)
    ensures
        final(out).len() == old(out).len(),
        forall|i: int|
            0 <= i < final(out).len() ==> min.as_int() <= #[trigger] final(out)[i].as_int()
                <= X::max_spec().as_int(),
{
    proof {
        X::value_in_bounds(min);
    }
    fill_inclusive(out, min, X::max_value(), rng)
}

/// Generate random values in the range [`X::min_value()`, `max_inclusive`]
/// with a new lazily-initialized thread-local random number generator.
pub fn random_fill_at_most<X: Sample + Bounded>(out: &mut Vec<X>, max_inclusive: X)
    ensures
        final(out).len() == old(out).len(),
        forall|i: int|
            0 <= i < final(out).len() ==> X::min_spec().as_int()
                <= #[trigger] final(out)[i].as_int() <= max_inclusive.as_int(),
{
    let mut rng = fresh_rng();
    random_fill_at_most_with_rng(out, max_inclusive, &mut rng)
}

/// Generate random values in the range [`X::min_value()`, `max_inclusive`]
/// with an existing random number generator.
pub fn random_fill_at_most_with_rng<X: Sample + Bounded>(
    out: &mut Vec<X>,
    max_inclusive: X,
    rng: &mut rand::rngs::ThreadRng,
)
    ensures
        final(out).len() == old(out).len(),
        forall|i: int|
            0 <= i < final(out).len() ==> X::min_spec().as_int()
                <= #[trigger] final(out)[i].as_int() <= max_inclusive.as_int(),
{
    proof {
        X::value_in_bounds(max_inclusive);
    }
    fill_inclusive(out, X::min_value(), max_inclusive, rng)
}

/// Generate random values in the range [`X::min_value()`, `max_exclusive`)
/// with a new lazily-initialized thread-local random number generator.
pub fn random_fill_at_most_exclusively<X: Sample + Bounded>(out: &mut Vec<X>, max_exclusive: X)
    requires
        X::min_spec().as_int() < max_exclusive.as_int(),
    ensures
        final(out).len() == old(out).len(),
        forall|i: int|
            0 <= i < final(out).len() ==> X::min_spec().as_int()
                <= #[trigger] final(out)[i].as_int() < max_exclusive.as_int(),
{
    let mut rng = fresh_rng();
    random_fill_at_most_exclusively_with_rng(out, max_exclusive, &mut rng)
}

/// Generate random values in the range [`X::min_value()`, `max_exclusive`)
/// with an existing random number generator.
pub fn random_fill_at_most_exclusively_with_rng<X: Sample + Bounded>(
    out: &mut Vec<X>,
    max_exclusive: X,
    rng: &mut rand::rngs::ThreadRng,
)
    requires
        X::min_spec().as_int() < max_exclusive.as_int(),
    ensures
        final(out).len() == old(out).len(),
        forall|i: int|
            0 <= i < final(out).len() ==> X::min_spec().as_int()
                <= #[trigger] final(out)[i].as_int() < max_exclusive.as_int(),
{
    fill_exclusive(out, X::min_value(), max_exclusive, rng)
}

/// Generate random values in a specific range with a new lazily-initialized
/// thread-local random number generator. The start boundary may not be
/// exclusive, and the range may not be empty.
pub fn random_fill_ranged<X: Sample + Bounded>(out: &mut Vec<X>, range: ValueRange<X>)
    requires
        range.start_included(),
        range.nonempty(),
    ensures
        final(out).len() == old(out).len(),
        forall|i: int| 0 <= i < final(out).len() ==> range.contains(#[trigger] final(out)[i].as_int()),
{
    let mut rng = fresh_rng();
    random_fill_ranged_with_rng(out, range, &mut rng)
}

/// Generate random values in a specific range with an existing random
/// number generator. The start boundary may not be exclusive, and the range
/// may not be empty.
pub fn random_fill_ranged_with_rng<X: Sample + Bounded>(
    out: &mut Vec<X>,
    range: ValueRange<X>,
    rng: &mut rand::rngs::ThreadRng,
)
    requires
        range.start_included(),
        range.nonempty(),
    ensures
        final(out).len() == old(out).len(),
        forall|i: int| 0 <= i < final(out).len() ==> range.contains(#[trigger] final(out)[i].as_int()),
{
    match range.start {
        Boundary::Excluded(_) => unreached(),
        Boundary::Included(min) => {
            match range.end {
                Boundary::Excluded(max_exclusive) => {
                    random_fill_exclusively_with_rng(out, min, max_exclusive, rng)
                },
                Boundary::Included(max_inclusive) => {
                    random_fill_inclusively_with_rng(out, min, max_inclusive, rng)
                },
                Boundary::Unbounded => random_fill_at_least_with_rng(out, min, rng),
            }
        },
        Boundary::Unbounded => {
            match range.end {
                Boundary::Excluded(max_exclusive) => {
                    random_fill_at_most_exclusively_with_rng(out, max_exclusive, rng)
                },
                Boundary::Included(max_inclusive) => {
                    random_fill_at_most_with_rng(out, max_inclusive, rng)
                },
                Boundary::Unbounded => random_fill_with_rng(out, rng),
            }
        },
    }
}

} // verus!
