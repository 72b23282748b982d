//! Trust scores.
//!
//! A score is a double-precision number. The library never does arithmetic on
//! it: it only stores it and compares it with a threshold. So a score is kept
//! as the 64 bits of its IEEE 754 encoding, and the comparison is defined on
//! those bits.

use vstd::prelude::*;

verus! {

/// The sign bit of the encoding.
pub const SIGN_BIT: u64 = 0x8000_0000_0000_0000;

/// The encoding of positive infinity: every larger magnitude is not a number.
pub const INFINITY_BITS: u64 = 0x7FF0_0000_0000_0000;

/// A trust score, held as the bits of a double-precision number.
#[derive(Clone, Copy, Debug, PartialEq, Eq, Structural)]
pub struct TrustScore {
    pub bits: u64,
}

impl TrustScore {
    /// The encoding without its sign bit.
    pub open spec fn magnitude(self) -> int {
        if self.bits >= SIGN_BIT {
            self.bits - SIGN_BIT
        } else {
            self.bits as int
        }
    }

    /// Whether the sign bit is set.
    pub open spec fn is_negative(self) -> bool {
        self.bits >= SIGN_BIT
    }

    /// Whether the bits encode no number at all.
    pub open spec fn is_nan(self) -> bool {
        self.magnitude() > INFINITY_BITS
    }

    /// The place of a score on the number line: scores that are numbers
    /// compare as their ranks do. Both zeros have rank 0, and the encodings
    /// of a sign grow with the magnitude of the number.
    pub open spec fn rank(self) -> int {
        if self.is_negative() {
            -self.magnitude()
        } else {
            self.magnitude()
        }
    }

    /// Numeric equality: both are numbers, and the same number.
    pub open spec fn same_number(self, other: TrustScore) -> bool {
        !self.is_nan() && !other.is_nan() && self.rank() == other.rank()
    }

    /// Numerically below `other`: both are numbers, and `self` is the smaller.
    pub open spec fn below(self, other: TrustScore) -> bool {
        !self.is_nan() && !other.is_nan() && self.rank() < other.rank()
    }

    /// The trust rule: `self >= threshold` as numbers. False when either
    /// side is not a number.
    pub open spec fn meets(self, threshold: TrustScore) -> bool {
        !self.is_nan() && !threshold.is_nan() && self.rank() >= threshold.rank()
    }

    /// The score with the given encoding.
    pub fn from_bits(bits: u64) -> (score: TrustScore)
        ensures
            score.bits == bits,
    {
        TrustScore { bits }
    }

    /// The score's encoding.
    pub fn to_bits(&self) -> (bits: u64)
        ensures
            bits == self.bits,
    {
        self.bits
    }

    /// The score 0.0, which a freshly fetched record carries.
    pub fn zero() -> (score: TrustScore)
        ensures
            score.bits == 0,
    {
        TrustScore { bits: 0 }
    }

    /// The score 5.0, used where the caller names none.
    pub fn neutral() -> (score: TrustScore)
        ensures
            score.bits == 0x4014_0000_0000_0000,
    {
        TrustScore { bits: 0x4014_0000_0000_0000 }
    }

    /// Whether the score is not a number.
    pub fn not_a_number(&self) -> (nan: bool)
        ensures
            nan == self.is_nan(),
    {
        let magnitude: u64 = if self.bits >= SIGN_BIT {
            self.bits - SIGN_BIT
        } else {
            self.bits
        };
        magnitude > INFINITY_BITS
    }

    /// Decides `self >= threshold` on the encodings.
    pub fn at_least(&self, threshold: &TrustScore) -> (trusted: bool)
        ensures
            trusted == self.meets(*threshold),
    {
        if self.not_a_number() || threshold.not_a_number() {
            return false;
        }
        let mine_negative: bool = self.bits >= SIGN_BIT;
        let theirs_negative: bool = threshold.bits >= SIGN_BIT;
        let mine: u64 = if mine_negative {
            self.bits - SIGN_BIT
        } else {
            self.bits
        };
        let theirs: u64 = if theirs_negative {
            threshold.bits - SIGN_BIT
        } else {
            threshold.bits
        };
        if mine_negative {
            if theirs_negative {
                mine <= theirs
            } else {
                mine == 0 && theirs == 0
            }
        } else {
            if theirs_negative {
                true
            } else {
                mine >= theirs
            }
        }
    }
}

/// A score that equals the threshold is trusted.
pub proof fn lemma_threshold_is_inclusive(score: TrustScore, threshold: TrustScore)
    requires
        score.same_number(threshold),
    ensures
        score.meets(threshold),
{
}

/// A score below the threshold, by however little, is not trusted.
pub proof fn lemma_below_threshold_fails(score: TrustScore, threshold: TrustScore)
    requires
        score.below(threshold),
    ensures
        !score.meets(threshold),
{
}

} // verus!
