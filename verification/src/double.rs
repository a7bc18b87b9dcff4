//! Double-precision numbers, held by their bits.
//!
//! The library compares numbers and never computes with them, so a number is
//! kept as the 64 bits of its binary interchange format: one sign bit, eleven
//! bits of exponent, fifty-two bits of fraction. Read without its sign bit, the
//! pattern of a number that is not a NaN grows with the number's absolute value.
//! That is all the order takes.

use vstd::prelude::*;

verus! {

/// The sign bit of a double.
pub const SIGN_BIT: u64 = 0x8000_0000_0000_0000;

/// The bits of positive infinity. A larger magnitude is a NaN.
pub const INFINITY_BITS: u64 = 0x7ff0_0000_0000_0000;

/// A double-precision number, as its bits.
///
/// Two doubles are equal here when their bits are: a NaN equals itself, and
/// the two zeros differ. The order is that of the numbers: see `less_than`.
#[derive(Clone, Copy, Debug, PartialEq, Eq, Structural)]
pub struct Double {
    pub bits: u64,
}

impl Double {
    /// The bits without the sign.
    pub open spec fn magnitude(self) -> int {
        if self.bits >= SIGN_BIT {
            self.bits - SIGN_BIT
        } else {
            self.bits as int
        }
    }

    /// Whether the sign bit is set.
    pub open spec fn is_negative(self) -> bool {
        self.bits >= SIGN_BIT
    }

    /// Whether this is not a number.
    pub open spec fn is_nan(self) -> bool {
        self.magnitude() > INFINITY_BITS
    }

    /// Where a number that is not a NaN stands among the others: the magnitude,
    /// counted downwards from zero under a set sign. Both zeros stand at 0.
    pub open spec fn rank(self) -> int {
        if self.is_negative() {
            -self.magnitude()
        } else {
            self.magnitude()
        }
    }

    /// `self < other` as doubles compare: false where either is a NaN.
    pub open spec fn less_than(self, other: Double) -> bool {
        !self.is_nan() && !other.is_nan() && self.rank() < other.rank()
    }

    /// `self > other` as doubles compare: false where either is a NaN.
    pub open spec fn greater_than(self, other: Double) -> bool {
        other.less_than(self)
    }

    /// The double with the given bits.
    pub fn from_bits(bits: u64) -> (d: Double)
        ensures
            d.bits == bits,
    {
        Double { bits }
    }

    /// The bits of this double.
    pub fn to_bits(self) -> (bits: u64)
        ensures
            bits == self.bits,
    {
        self.bits
    }

    fn unsigned(self) -> (m: u64)
        ensures
            m == self.magnitude(),
    {
        if self.bits >= SIGN_BIT {
            self.bits - SIGN_BIT
        } else {
            self.bits
        }
    }

    /// Whether this is not a number.
    pub fn nan(self) -> (r: bool)
        ensures
            r == self.is_nan(),
    {
        self.unsigned() > INFINITY_BITS
    }

    /// `self < other` as doubles compare.
    pub fn lt(self, other: Double) -> (r: bool)
        ensures
            r == self.less_than(other),
    {
        let a: u64 = self.unsigned();
        let b: u64 = other.unsigned();
        if a > INFINITY_BITS || b > INFINITY_BITS {
            false
        } else if self.bits >= SIGN_BIT {
            if other.bits >= SIGN_BIT {
                b < a
            } else {
                a > 0 || b > 0
            }
        } else {
            other.bits < SIGN_BIT && a < b
        }
    }

    /// `self > other` as doubles compare.
    pub fn gt(self, other: Double) -> (r: bool)
        ensures
            r == self.greater_than(other),
    {
        other.lt(self)
    }
}

/// No double is less than itself.
pub proof fn less_than_is_irreflexive(a: Double)
    ensures
        !a.less_than(a),
{
}

/// Less-than passes along a chain.
pub proof fn less_than_is_transitive(a: Double, b: Double, c: Double)
    requires
        a.less_than(b),
        b.less_than(c),
    ensures
        a.less_than(c),
{
}

/// Of two doubles that are no NaN, one is less than the other, or they stand
/// at the same place: then they have the same bits, or both are zeros.
pub proof fn less_than_is_total_without_nan(a: Double, b: Double)
    requires
        !a.is_nan(),
        !b.is_nan(),
    ensures
        a.less_than(b) || b.less_than(a) || a.rank() == b.rank(),
        a.rank() == b.rank() ==> a.bits == b.bits || (a.magnitude() == 0 && b.magnitude() == 0),
{
}

/// A NaN is neither less nor greater than anything.
pub proof fn nan_is_unordered(a: Double, b: Double)
    requires
        a.is_nan(),
    ensures
        !a.less_than(b),
        !b.less_than(a),
        !a.greater_than(b),
        !b.greater_than(a),
{
}

} // verus!
