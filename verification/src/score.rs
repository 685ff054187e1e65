//! Fixed-point scores and the coercion of raw readings into the unit interval.

use vstd::prelude::*;

verus! {

/// The fixed-point value of 1.0: scores are counted in millionths.
pub const SCALE: i64 = 1_000_000;

/// Whether `x` lies in the closed unit interval.
pub open spec fn is_score(x: int) -> bool {
    0 <= x <= SCALE
}

/// The nearest point of the unit interval: values below zero become zero,
/// values above one become one.
pub open spec fn clamp_unit(x: int) -> int {
    if x < 0 {
        0
    } else if x > SCALE {
        SCALE as int
    } else {
        x
    }
}

/// What is left of one after taking a score away.
pub open spec fn complement(x: int) -> int {
    SCALE - x
}

/// Coerces a raw reading into the unit interval.
pub fn clamp01(x: i64) -> (r: i64)
    ensures
        r == clamp_unit(x as int),
        is_score(r as int),
{
    if x < 0 {
        0
    } else if x > SCALE {
        SCALE
    } else {
        x
    }
}

/// Coerces a wide intermediate result into the unit interval.
pub fn clamp01_wide(x: i128) -> (r: i64)
    ensures
        r == clamp_unit(x as int),
        is_score(r as int),
{
    if x < 0 {
        0
    } else if x > 1_000_000 {
        SCALE
    } else {
        x as i64
    }
}

/// A raw scalar as it comes from outside: a number of millionths, or the
/// mark of a value that is not a finite number.
#[derive(Clone, Copy, Debug, PartialEq, Eq, Structural)]
pub enum Reading {
    /// Not a number, or infinite.
    NotFinite,
    /// A finite value, in millionths.
    Millionths(i64),
}

impl Reading {
    /// The score that a reading stands for: zero where it is not finite,
    /// else the nearest point of the unit interval.
    pub open spec fn score(&self) -> int {
        match self {
            Reading::NotFinite => 0,
            Reading::Millionths(x) => clamp_unit(*x as int),
        }
    }

    /// Coerces the reading into the unit interval.
    pub fn coerce(&self) -> (r: i64)
        ensures
            r == self.score(),
            is_score(r as int),
            clamp_unit(r as int) == r,
    {
        match self {
            Reading::NotFinite => 0,
            Reading::Millionths(x) => clamp01(*x),
        }
    }
}

/// Clamping always lands in the unit interval and leaves scores alone.
pub proof fn lemma_clamp_unit(x: int)
    ensures
        is_score(clamp_unit(x)),
        is_score(x) ==> clamp_unit(x) == x,
        clamp_unit(clamp_unit(x)) == clamp_unit(x),
{
}

} // verus!
