//! Scalar carrier and strategy parameters.
//!
//! The engine in this crate never performs real-number arithmetic itself:
//! every price-like scalar is carried opaquely as the bit pattern of an
//! IEEE-754 double. The engine stores these values, routes them through the
//! latency buffer and the step records, and inspects only two patterns whose
//! meaning the encoding fixes: the pattern of positive zero, and the range of
//! patterns that encode a strictly positive value.

use vstd::prelude::*;

verus! {

/// Largest bit pattern that encodes a strictly positive double
/// (positive infinity). Every pattern from 1 up to this value has a clear
/// sign bit and is neither a zero nor a NaN.
pub const POSITIVE_MAX_PATTERN: u64 = 0x7FF0_0000_0000_0000;

/// A 64-bit scalar, carried by its IEEE-754 double bit pattern.
#[derive(Clone, Copy, PartialEq, Eq, Structural, Debug)]
pub struct Num {
    pub bits: u64,
}

impl Num {
    /// The pattern of positive zero.
    pub open spec fn is_zero_pattern(self) -> bool {
        self.bits == 0
    }

    /// Patterns that encode a strictly positive double: from the smallest
    /// positive subnormal up to positive infinity.
    pub open spec fn is_positive_pattern(self) -> bool {
        1 <= self.bits <= POSITIVE_MAX_PATTERN
    }

    /// The scalar whose pattern is positive zero.
    pub fn zero() -> (r: Num)
        ensures
            r.is_zero_pattern(),
    {
        Num { bits: 0 }
    }

    /// Whether this pattern encodes a strictly positive value.
    pub fn is_positive(&self) -> (r: bool)
        ensures
            r == self.is_positive_pattern(),
    {
        1 <= self.bits && self.bits <= POSITIVE_MAX_PATTERN
    }

    /// Whether this pattern is positive zero.
    pub fn is_zero(&self) -> (r: bool)
        ensures
            r == self.is_zero_pattern(),
    {
        self.bits == 0
    }
}

/// Strategy parameters of the quoting model. Immutable for the lifetime of a
/// trajectory; `gamma`, `sigma` and `k` vary across sweep combinations.
#[derive(Clone, Copy, Debug)]
pub struct Parameters {
    /// Risk aversion.
    pub gamma: Num,
    /// Volatility.
    pub sigma: Num,
    /// End time of the quoting horizon.
    pub t_horizon: Num,
    /// Liquidity parameter.
    pub k: Num,
    /// Base arrival rate.
    pub a: Num,
}

/// Rejection reasons of a malformed configuration. Validation runs before any
/// simulation work begins, so a bad domain never reaches the step loop.
#[derive(Clone, Copy, PartialEq, Eq, Structural, Debug)]
pub enum ConfigError {
    /// The risk aversion is not strictly positive, so the spread formula is
    /// undefined.
    NonPositiveRiskAversion,
    /// The liquidity parameter is not strictly positive, so the spread
    /// formula is undefined.
    NonPositiveLiquidity,
    /// The time step is not strictly positive.
    NonPositiveTimeStep,
    /// The trajectory would hold no steps; per-step statistics would divide
    /// by zero.
    NoSteps,
    /// The step count exceeds what the engine's inventory counter can track.
    StepCountTooLarge,
    /// Fewer than two runs per combination; the sample variance would divide
    /// by zero.
    TooFewIterations,
}

} // verus!
