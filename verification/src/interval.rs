//! Closed fixed-point range, used to bound valid ray parameters and to
//! clamp color channels.

use vstd::prelude::*;
use crate::fixed::FP_MAX;

verus! {

/// A `{min, max}` range of fixed-point values. Producers supply
/// `min <= max`; the structure does not enforce it.
#[derive(Clone, Copy, PartialEq, Eq, Structural, Debug)]
pub struct Interval {
    pub min: i64,
    pub max: i64,
}

/// Model of the strict interior test.
pub open spec fn surrounds_s(i: Interval, x: int) -> bool {
    i.min < x && x < i.max
}

/// Model of clamping into the range.
pub open spec fn clamp_s(i: Interval, x: int) -> int {
    if x < i.min {
        i.min as int
    } else if x > i.max {
        i.max as int
    } else {
        x
    }
}

impl Interval {
    /// The range with the given bounds.
    pub fn new(min: i64, max: i64) -> (r: Interval)
        ensures
            r.min == min,
            r.max == max,
    {
        Interval { min, max }
    }

    /// The widest representable range, standing in for the full real line.
    pub fn universe() -> (r: Interval)
        ensures
            r.min == -FP_MAX,
            r.max == FP_MAX,
    {
        Interval { min: -FP_MAX, max: FP_MAX }
    }

    /// Whether `x` lies strictly inside the range (both ends exclusive).
    pub fn surrounds(&self, x: i64) -> (r: bool)
        ensures
            r == surrounds_s(*self, x as int),
    {
        self.min < x && x < self.max
    }

    /// `x` clamped into the range.
    pub fn clamp(&self, x: i64) -> (r: i64)
        ensures
            r == clamp_s(*self, x as int),
    {
        if x < self.min {
            self.min
        } else if x > self.max {
            self.max
        } else {
            x
        }
    }
}

impl Default for Interval {
    /// The widest representable range.
    fn default() -> (r: Interval)
        ensures
            r.min == -FP_MAX,
            r.max == FP_MAX,
    {
        Interval::universe()
    }
}

} // verus!
