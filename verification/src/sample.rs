use vstd::prelude::*;

use crate::rng::{
    sample_i128_exclusive, sample_i128_inclusive, sample_u128_exclusive, sample_u128_inclusive,
};

verus! {

/// A numeric type whose values a uniform sampler can draw from a subrange
/// of its value space. `as_int` views a value as a mathematical integer;
/// the contracts of this crate speak of values through that view.
pub trait Sample: Sized + Copy {
    /// The value seen as a mathematical integer.
    spec fn as_int(self) -> int;

    /// Order test: `true` exactly when `self` is at most `other`.
    fn leq(self, other: Self) -> (r: bool)
        ensures
            r <==> self.as_int() <= other.as_int(),
    ;

    /// Draw one value from the inclusive range [`min`, `max`].
    fn sample_inclusive(min: Self, max: Self, rng: &mut rand::rngs::ThreadRng) -> (r: Self)
        requires
            min.as_int() <= max.as_int(),
        ensures
            min.as_int() <= r.as_int() <= max.as_int(),
    ;

    /// Draw one value from the half-open range [`min`, `max`).
    fn sample_exclusive(min: Self, max: Self, rng: &mut rand::rngs::ThreadRng) -> (r: Self)
        requires
            min.as_int() < max.as_int(),
        ensures
            min.as_int() <= r.as_int() < max.as_int(),
    ;
}

impl Sample for u8 {
    open spec fn as_int(self) -> int {
        self as int
    }

    fn leq(self, other: Self) -> (r: bool) {
        self <= other
    }

    fn sample_inclusive(min: Self, max: Self, rng: &mut rand::rngs::ThreadRng) -> (r: Self) {
        let w = sample_u128_inclusive(min as u128, max as u128, rng);
        w as u8
    }

    fn sample_exclusive(min: Self, max: Self, rng: &mut rand::rngs::ThreadRng) -> (r: Self) {
        let w = sample_u128_exclusive(min as u128, max as u128, rng);
        w as u8
    }
}

impl Sample for u16 {
    open spec fn as_int(self) -> int {
        self as int
    }

    fn leq(self, other: Self) -> (r: bool) {
        self <= other
    }

    fn sample_inclusive(min: Self, max: Self, rng: &mut rand::rngs::ThreadRng) -> (r: Self) {
        let w = sample_u128_inclusive(min as u128, max as u128, rng);
        w as u16
    }

    fn sample_exclusive(min: Self, max: Self, rng: &mut rand::rngs::ThreadRng) -> (r: Self) {
        let w = sample_u128_exclusive(min as u128, max as u128, rng);
        w as u16
    }
}

impl Sample for u32 {
    open spec fn as_int(self) -> int {
        self as int
    }

    fn leq(self, other: Self) -> (r: bool) {
        self <= other
    }

    fn sample_inclusive(min: Self, max: Self, rng: &mut rand::rngs::ThreadRng) -> (r: Self) {
        let w = sample_u128_inclusive(min as u128, max as u128, rng);
        w as u32
    }

    fn sample_exclusive(min: Self, max: Self, rng: &mut rand::rngs::ThreadRng) -> (r: Self) {
        let w = sample_u128_exclusive(min as u128, max as u128, rng);
        w as u32
    }
}

impl Sample for u64 {
    open spec fn as_int(self) -> int {
        self as int
    }

    fn leq(self, other: Self) -> (r: bool) {
        self <= other
    }

    fn sample_inclusive(min: Self, max: Self, rng: &mut rand::rngs::ThreadRng) -> (r: Self) {
        let w = sample_u128_inclusive(min as u128, max as u128, rng);
        w as u64
    }

    fn sample_exclusive(min: Self, max: Self, rng: &mut rand::rngs::ThreadRng) -> (r: Self) {
        let w = sample_u128_exclusive(min as u128, max as u128, rng);
        w as u64
    }
}

impl Sample for u128 {
    open spec fn as_int(self) -> int {
        self as int
    }

    fn leq(self, other: Self) -> (r: bool) {
        self <= other
    }

    fn sample_inclusive(min: Self, max: Self, rng: &mut rand::rngs::ThreadRng) -> (r: Self) {
        sample_u128_inclusive(min, max, rng)
    }

    fn sample_exclusive(min: Self, max: Self, rng: &mut rand::rngs::ThreadRng) -> (r: Self) {
        sample_u128_exclusive(min, max, rng)
    }
}

impl Sample for usize {
    open spec fn as_int(self) -> int {
        self as int
    }

    fn leq(self, other: Self) -> (r: bool) {
        self <= other
    }

    fn sample_inclusive(min: Self, max: Self, rng: &mut rand::rngs::ThreadRng) -> (r: Self) {
        let w = sample_u128_inclusive(min as u128, max as u128, rng);
        w as usize
    }

    fn sample_exclusive(min: Self, max: Self, rng: &mut rand::rngs::ThreadRng) -> (r: Self) {
        let w = sample_u128_exclusive(min as u128, max as u128, rng);
        w as usize
    }
}

impl Sample for i8 {
    open spec fn as_int(self) -> int {
        self as int
    }

    fn leq(self, other: Self) -> (r: bool) {
        self <= other
    }

    fn sample_inclusive(min: Self, max: Self, rng: &mut rand::rngs::ThreadRng) -> (r: Self) {
        let w = sample_i128_inclusive(min as i128, max as i128, rng);
        w as i8
    }

    fn sample_exclusive(min: Self, max: Self, rng: &mut rand::rngs::ThreadRng) -> (r: Self) {
        let w = sample_i128_exclusive(min as i128, max as i128, rng);
        w as i8
    }
}

impl Sample for i16 {
    open spec fn as_int(self) -> int {
        self as int
    }

    fn leq(self, other: Self) -> (r: bool) {
        self <= other
    }

    fn sample_inclusive(min: Self, max: Self, rng: &mut rand::rngs::ThreadRng) -> (r: Self) {
        let w = sample_i128_inclusive(min as i128, max as i128, rng);
        w as i16
    }

    fn sample_exclusive(min: Self, max: Self, rng: &mut rand::rngs::ThreadRng) -> (r: Self) {
        let w = sample_i128_exclusive(min as i128, max as i128, rng);
        w as i16
    }
}

impl Sample for i32 {
    open spec fn as_int(self) -> int {
        self as int
    }

    fn leq(self, other: Self) -> (r: bool) {
        self <= other
    }

    fn sample_inclusive(min: Self, max: Self, rng: &mut rand::rngs::ThreadRng) -> (r: Self) {
        let w = sample_i128_inclusive(min as i128, max as i128, rng);
        w as i32
    }

    fn sample_exclusive(min: Self, max: Self, rng: &mut rand::rngs::ThreadRng) -> (r: Self) {
        let w = sample_i128_exclusive(min as i128, max as i128, rng);
        w as i32
    }
}

impl Sample for i64 {
    open spec fn as_int(self) -> int {
        self as int
    }

    fn leq(self, other: Self) -> (r: bool) {
        self <= other
    }

    fn sample_inclusive(min: Self, max: Self, rng: &mut rand::rngs::ThreadRng) -> (r: Self) {
        let w = sample_i128_inclusive(min as i128, max as i128, rng);
        w as i64
    }

    fn sample_exclusive(min: Self, max: Self, rng: &mut rand::rngs::ThreadRng) -> (r: Self) {
        let w = sample_i128_exclusive(min as i128, max as i128, rng);
        w as i64
    }
}

impl Sample for i128 {
    open spec fn as_int(self) -> int {
        self as int
    }

    fn leq(self, other: Self) -> (r: bool) {
        self <= other
    }

    fn sample_inclusive(min: Self, max: Self, rng: &mut rand::rngs::ThreadRng) -> (r: Self) {
        sample_i128_inclusive(min, max, rng)
    }

    fn sample_exclusive(min: Self, max: Self, rng: &mut rand::rngs::ThreadRng) -> (r: Self) {
        sample_i128_exclusive(min, max, rng)
    }
}

impl Sample for isize {
    open spec fn as_int(self) -> int {
        self as int
    }

    fn leq(self, other: Self) -> (r: bool) {
        self <= other
    }

    fn sample_inclusive(min: Self, max: Self, rng: &mut rand::rngs::ThreadRng) -> (r: Self) {
        let w = sample_i128_inclusive(min as i128, max as i128, rng);
        w as isize
    }

    fn sample_exclusive(min: Self, max: Self, rng: &mut rand::rngs::ThreadRng) -> (r: Self) {
        let w = sample_i128_exclusive(min as i128, max as i128, rng);
        w as isize
    }
}

} // verus!
