use vstd::prelude::*;

verus! {

/// A signed count of motor pulses along one axis, relative to an arbitrary
/// power-on origin. One step is the smallest unit of commanded motion.
#[derive(Debug, PartialEq, Eq, Structural, Copy, Clone)]
pub struct Steps(pub i64);

/// A physical distance, held in fixed point as thousandths of a millimeter,
/// so that conversion to whole steps can quantize exactly as specified.
#[derive(Debug, PartialEq, Eq, Structural, Copy, Clone)]
pub struct Millimeters(pub i64);

/// A pair of coordinates expressed in a single unit, never mixed.
#[derive(Debug, PartialEq, Eq, Structural, Copy, Clone)]
pub struct Position<U> {
    pub x: U,
    pub y: U,
}

/// The sign of travel along an axis.
#[derive(Debug, PartialEq, Eq, Structural, Copy, Clone)]
pub enum Dir {
    Minus,
    Plus,
}

/// Integer division that truncates toward zero, for a positive divisor:
/// the quotient of the magnitudes, carrying the dividend's sign.
pub open spec fn div_trunc(a: int, b: int) -> int
    recommends
        b > 0,
{
    if a >= 0 {
        a / b
    } else {
        -((-a) / b)
    }
}

impl Steps {
    pub fn raw_value(self) -> (r: i64)
        ensures
            r == self.0,
    {
        return self.0;
    }

    /// Converts a step count back to a distance, given the distance covered
    /// by one step. Exact: no rounding happens in this direction.
    pub fn to_millimeters(self, millimeters_per_steps: Millimeters) -> (r: Millimeters)
        requires
            i64::MIN <= self.0 * millimeters_per_steps.0 <= i64::MAX,
        ensures
            r.0 == self.0 * millimeters_per_steps.0,
    {
        return Millimeters(self.0 * millimeters_per_steps.0);
    }
}

impl Millimeters {
    pub fn raw_value(self) -> (r: i64)
        ensures
            r == self.0,
    {
        return self.0;
    }

    /// Converts a distance to the step count whose travel does not pass the
    /// distance: the quotient truncates toward zero, so a round trip through
    /// `to_millimeters` is lossy unless the distance is a whole number of
    /// steps. The scale is the distance one step covers, always positive.
    pub fn to_steps(self, millimeters_per_steps: Millimeters) -> (r: Steps)
        requires
            millimeters_per_steps.0 > 0,
        ensures
            r.0 == div_trunc(self.0 as int, millimeters_per_steps.0 as int),
    {
        return Steps(self.0 / millimeters_per_steps.0);
    }
}

} // verus!
