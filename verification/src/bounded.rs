use vstd::prelude::*;

use crate::sample::Sample;

verus! {

/// The natural range of a type: the least and greatest value a sampler
/// may produce for it when the caller gives no bound of their own.
/// `min_spec` and `max_spec` are the mathematical statements of the two
/// endpoints; `value_in_bounds` records that every value of the type
/// lies between them.
pub trait Bounded: Sample {
    /// The least value of the natural range.
    spec fn min_spec() -> Self;

    /// The greatest value of the natural range.
    spec fn max_spec() -> Self;

    /// Every value of the type lies within the natural range.
    proof fn value_in_bounds(x: Self)
        ensures
            Self::min_spec().as_int() <= x.as_int(),
            x.as_int() <= Self::max_spec().as_int(),
    ;

    fn max_value() -> (r: Self)
        ensures
            r == Self::max_spec(),
    ;

    fn min_value() -> (r: Self)
        ensures
            r == Self::min_spec(),
    ;
}

impl Bounded for u8 {
    open spec fn min_spec() -> Self {
        u8::MIN
    }

    open spec fn max_spec() -> Self {
        u8::MAX
    }

    proof fn value_in_bounds(x: Self) {
    }

    fn max_value() -> (r: Self) {
        u8::MAX
    }

    fn min_value() -> (r: Self) {
        u8::MIN
    }
}

impl Bounded for u16 {
    open spec fn min_spec() -> Self {
        u16::MIN
    }

    open spec fn max_spec() -> Self {
        u16::MAX
    }

    proof fn value_in_bounds(x: Self) {
    }

    fn max_value() -> (r: Self) {
        u16::MAX
    }

    fn min_value() -> (r: Self) {
        u16::MIN
    }
}

impl Bounded for u32 {
    open spec fn min_spec() -> Self {
        u32::MIN
    }

    open spec fn max_spec() -> Self {
        u32::MAX
    }

    proof fn value_in_bounds(x: Self) {
    }

    fn max_value() -> (r: Self) {
        u32::MAX
    }

    fn min_value() -> (r: Self) {
        u32::MIN
    }
}

impl Bounded for u64 {
    open spec fn min_spec() -> Self {
        u64::MIN
    }

    open spec fn max_spec() -> Self {
        u64::MAX
    }

    proof fn value_in_bounds(x: Self) {
    }

    fn max_value() -> (r: Self) {
        u64::MAX
    }

    fn min_value() -> (r: Self) {
        u64::MIN
    }
}

impl Bounded for u128 {
    open spec fn min_spec() -> Self {
        u128::MIN
    }

    open spec fn max_spec() -> Self {
        u128::MAX
    }

    proof fn value_in_bounds(x: Self) {
    }

    fn max_value() -> (r: Self) {
        u128::MAX
    }

    fn min_value() -> (r: Self) {
        u128::MIN
    }
}

impl Bounded for usize {
    open spec fn min_spec() -> Self {
        usize::MIN
    }

    open spec fn max_spec() -> Self {
        usize::MAX
    }

    proof fn value_in_bounds(x: Self) {
    }

    fn max_value() -> (r: Self) {
        usize::MAX
    }

    fn min_value() -> (r: Self) {
        usize::MIN
    }
}

impl Bounded for i8 {
    open spec fn min_spec() -> Self {
        i8::MIN
    }

    open spec fn max_spec() -> Self {
        i8::MAX
    }

    proof fn value_in_bounds(x: Self) {
    }

    fn max_value() -> (r: Self) {
        i8::MAX
    }

    fn min_value() -> (r: Self) {
        i8::MIN
    }
}

impl Bounded for i16 {
    open spec fn min_spec() -> Self {
        i16::MIN
    }

    open spec fn max_spec() -> Self {
        i16::MAX
    }

    proof fn value_in_bounds(x: Self) {
    }

    fn max_value() -> (r: Self) {
        i16::MAX
    }

    fn min_value() -> (r: Self) {
        i16::MIN
    }
}

impl Bounded for i32 {
    open spec fn min_spec() -> Self {
        i32::MIN
    }

    open spec fn max_spec() -> Self {
        i32::MAX
    }

    proof fn value_in_bounds(x: Self) {
    }

    fn max_value() -> (r: Self) {
        i32::MAX
    }

    fn min_value() -> (r: Self) {
        i32::MIN
    }
}

impl Bounded for i64 {
    open spec fn min_spec() -> Self {
        i64::MIN
    }

    open spec fn max_spec() -> Self {
        i64::MAX
    }

    proof fn value_in_bounds(x: Self) {
    }

    fn max_value() -> (r: Self) {
        i64::MAX
    }

    fn min_value() -> (r: Self) {
        i64::MIN
    }
}

impl Bounded for i128 {
    open spec fn min_spec() -> Self {
        i128::MIN
    }

    open spec fn max_spec() -> Self {
        i128::MAX
    }

    proof fn value_in_bounds(x: Self) {
    }

    fn max_value() -> (r: Self) {
        i128::MAX
    }

    fn min_value() -> (r: Self) {
        i128::MIN
    }
}

impl Bounded for isize {
    open spec fn min_spec() -> Self {
        isize::MIN
    }

    open spec fn max_spec() -> Self {
        isize::MAX
    }

    proof fn value_in_bounds(x: Self) {
    }

    fn max_value() -> (r: Self) {
        isize::MAX
    }

    fn min_value() -> (r: Self) {
        isize::MIN
    }
}

} // verus!
