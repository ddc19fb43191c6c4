use vstd::prelude::*;

use crate::bounded::Bounded;
use crate::sample::Sample;

verus! {

/// One edge of a range whose bounds are only known at run time: a value
/// that belongs to the range, a value that does not, or no edge at all.
#[derive(Clone, Copy, Debug, PartialEq, Eq)]
pub enum Boundary<X> {
    Included(X),
    Excluded(X),
    Unbounded,
}

/// A range of values given by its two edges. An unbounded edge falls back
/// to the natural range of the element type.
#[derive(Clone, Copy, Debug, PartialEq, Eq)]
pub struct ValueRange<X> {
    pub start: Boundary<X>,
    pub end: Boundary<X>,
}

impl<X: Sample + Bounded> ValueRange<X> {
    /// The start edge is not exclusive: sampling supports no
    /// exclusive lower bound.
    pub open spec fn start_included(self) -> bool {
        !(self.start is Excluded)
    }

    /// The least integer the range admits.
    pub open spec fn lo(self) -> int {
        match self.start {
            Boundary::Included(x) => x.as_int(),
            Boundary::Excluded(x) => x.as_int() + 1,
            Boundary::Unbounded => X::min_spec().as_int(),
        }
    }

    /// Whether the integer `v` lies within the range.
    pub open spec fn contains(self, v: int) -> bool {
        match self.end {
            Boundary::Included(m) => self.lo() <= v <= m.as_int(),
            Boundary::Excluded(m) => self.lo() <= v < m.as_int(),
            Boundary::Unbounded => self.lo() <= v <= X::max_spec().as_int(),
        }
    }

    /// Whether the range admits at least one integer.
    pub open spec fn nonempty(self) -> bool {
        match self.end {
            Boundary::Included(m) => self.lo() <= m.as_int(),
            Boundary::Excluded(m) => self.lo() < m.as_int(),
            Boundary::Unbounded => self.lo() <= X::max_spec().as_int(),
        }
    }
}

} // verus!
