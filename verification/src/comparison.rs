//! Comparison ratios and the annotation that a ratio earns.
//!
//! A ratio is the measured time relative to a baseline, 1.0 at parity. It is
//! held as the bit pattern of its IEEE 754 double-precision value, so that
//! the thresholds are decided exactly as they are on that value.

use vstd::prelude::*;

verus! {

/// The sign bit of a double.
pub const SIGN_BIT: u64 = 0x8000_0000_0000_0000;

/// The bits of positive infinity; a larger magnitude is not a number.
pub const INFINITY_BITS: u64 = 0x7FF0_0000_0000_0000;

/// The bits of 1.8: from here on a ratio earns the rocket.
pub const ROCKET_BITS: u64 = 0x3FFC_CCCC_CCCC_CCCD;

/// The bits of 0.9: above it a ratio counts as not worse, below it as a
/// regression, and exactly there it gets no decoration.
pub const EVEN_BITS: u64 = 0x3FEC_CCCC_CCCC_CCCD;

/// How a measured cell is annotated.
#[derive(Clone, Copy, Debug, PartialEq, Eq, Structural)]
pub enum Rating {
    /// A rocket, and the ratio in bold.
    Rocket,
    /// A check mark, and the ratio in bold.
    Check,
    /// A cross, and the ratio in italics.
    Cross,
    /// No symbol and no emphasis.
    Even,
}

/// A comparison ratio, as the bits of a double.
#[derive(Clone, Copy, Debug, PartialEq, Eq, Structural)]
pub struct Comparison {
    pub bits: u64,
}

impl Comparison {
    /// The bits without the sign.
    pub open spec fn magnitude(self) -> int {
        if self.bits >= SIGN_BIT {
            self.bits - SIGN_BIT
        } else {
            self.bits as int
        }
    }

    /// Whether the bits encode no number at all.
    pub open spec fn is_nan(self) -> bool {
        self.magnitude() > INFINITY_BITS
    }

    /// An integer that orders the ratios that are numbers as their values
    /// order them: the magnitude, negated under the sign bit. Both zeros
    /// have rank 0.
    pub open spec fn rank(self) -> int {
        if self.bits >= SIGN_BIT {
            -self.magnitude()
        } else {
            self.magnitude()
        }
    }

    /// `self >= other` on the values: false where either is not a number.
    pub open spec fn at_least(self, other: Comparison) -> bool {
        !self.is_nan() && !other.is_nan() && self.rank() >= other.rank()
    }

    /// `self > other` on the values: false where either is not a number.
    pub open spec fn above(self, other: Comparison) -> bool {
        !self.is_nan() && !other.is_nan() && self.rank() > other.rank()
    }

    /// `self < other` on the values: false where either is not a number.
    pub open spec fn below(self, other: Comparison) -> bool {
        !self.is_nan() && !other.is_nan() && self.rank() < other.rank()
    }

    /// The ratio from which the rocket is earned.
    pub open spec fn rocket_threshold() -> Comparison {
        Comparison { bits: ROCKET_BITS }
    }

    /// The ratio that gets no decoration.
    pub open spec fn even_point() -> Comparison {
        Comparison { bits: EVEN_BITS }
    }

    /// The annotation that this ratio earns. The order of the tests matters:
    /// the first that holds decides, and a ratio for which none holds (the
    /// even point itself, or no number) is `Even`.
    pub open spec fn rating(self) -> Rating {
        if self.at_least(Self::rocket_threshold()) {
            Rating::Rocket
        } else if self.above(Self::even_point()) {
            Rating::Check
        } else if self.below(Self::even_point()) {
            Rating::Cross
        } else {
            Rating::Even
        }
    }

    /// The ratio with these bits.
    pub fn from_bits(bits: u64) -> (ratio: Comparison)
        ensures
            ratio.bits == bits,
    {
        Comparison { bits }
    }

    /// Decides the annotation of this ratio.
    pub fn rate(&self) -> (rating: Rating)
        ensures
            rating == self.rating(),
    {
        let negative = self.bits >= SIGN_BIT;
        let magnitude: u64 = if negative {
            self.bits - SIGN_BIT
        } else {
            self.bits
        };
        if magnitude > INFINITY_BITS {
            Rating::Even
        } else if negative {
            // Nothing under the sign bit is above zero.
            Rating::Cross
        } else if magnitude >= ROCKET_BITS {
            Rating::Rocket
        } else if magnitude > EVEN_BITS {
            Rating::Check
        } else if magnitude < EVEN_BITS {
            Rating::Cross
        } else {
            Rating::Even
        }
    }
}

/// Every ratio earns exactly one annotation, and each annotation has its own
/// range: the rocket from the rocket threshold on, the check strictly
/// between the even point and the rocket threshold, the cross below the
/// even point, and none at the even point itself or where the ratio is no
/// number. No two of the ranges share a ratio.
pub proof fn lemma_rating_ranges(ratio: Comparison)
    ensures
        ratio.rating() == Rating::Rocket <==> ratio.at_least(Comparison::rocket_threshold()),
        ratio.rating() == Rating::Check <==> ratio.above(Comparison::even_point()) && ratio.below(
            Comparison::rocket_threshold(),
        ),
        ratio.rating() == Rating::Cross <==> ratio.below(Comparison::even_point()),
        ratio.rating() == Rating::Even <==> ratio.is_nan() || ratio.rank()
            == Comparison::even_point().rank(),
        !(ratio.at_least(Comparison::rocket_threshold()) && ratio.below(Comparison::even_point())),
        !(ratio.above(Comparison::even_point()) && ratio.below(Comparison::even_point())),
{
}

} // verus!
