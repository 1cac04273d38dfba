use vstd::prelude::*;

verus! {

/// Bit pattern of the sign bit of an IEEE-754 double.
pub const SIGN_BIT: u64 = 0x8000_0000_0000_0000;

/// Bit pattern of positive infinity. A magnitude above it is not a number.
pub const INFINITY_BITS: u64 = 0x7ff0_0000_0000_0000;

/// A reward rate: an IEEE-754 double, held by its bit pattern.
///
/// The library never does floating-point arithmetic. It carries rates
/// through unchanged and orders them by [`Rate::order_key`]. Two rates are
/// equal when their patterns are; the order is coarser, see there.
#[derive(Clone, Copy, Debug, PartialEq, Eq, Structural)]
pub struct Rate {
    pub bits: u64,
}

impl Rate {
    /// The bit pattern without its sign bit.
    pub open spec fn magnitude(self) -> int {
        if self.bits >= SIGN_BIT {
            self.bits - SIGN_BIT
        } else {
            self.bits as int
        }
    }

    /// The pattern encodes no number (NaN).
    pub open spec fn is_nan(self) -> bool {
        self.magnitude() > INFINITY_BITS
    }

    /// The sign bit is set.
    pub open spec fn is_negative(self) -> bool {
        self.bits >= SIGN_BIT
    }

    /// The integer by which rates are ordered.
    ///
    /// Numbers are ordered as IEEE-754 orders them: a larger number has a
    /// larger key, and the two zeros share the key 0. Every NaN has one key,
    /// below that of negative infinity, so a NaN is the least of all rates.
    pub open spec fn order_key(self) -> int {
        if self.is_nan() {
            -INFINITY_BITS - 1
        } else if self.is_negative() {
            -self.magnitude()
        } else {
            self.magnitude()
        }
    }

    /// The rate with the given bit pattern.
    pub fn from_bits(bits: u64) -> (r: Rate)
        ensures
            r.bits == bits,
    {
        Rate { bits }
    }

    /// The bit pattern of this rate.
    pub fn to_bits(self) -> (bits: u64)
        ensures
            bits == self.bits,
    {
        self.bits
    }

    /// Positive zero, the rate of a component that the source left out.
    pub fn zero() -> (r: Rate)
        ensures
            r == Rate::spec_zero(),
    {
        Rate { bits: 0 }
    }

    pub open spec fn spec_zero() -> Rate {
        Rate { bits: 0 }
    }

    /// Computes [`Rate::order_key`].
    pub fn key(self) -> (k: i64)
        ensures
            k == self.order_key(),
    {
        let negative: bool = self.bits >= SIGN_BIT;
        let magnitude: u64 = if negative {
            self.bits - SIGN_BIT
        } else {
            self.bits
        };
        if magnitude > INFINITY_BITS {
            -0x7ff0_0000_0000_0001i64
        } else if negative {
            -(magnitude as i64)
        } else {
            magnitude as i64
        }
    }

    /// `self` ranks at least as high as `other`.
    pub fn outranks(self, other: Rate) -> (b: bool)
        ensures
            b == (self.order_key() >= other.order_key()),
    {
        self.key() >= other.key()
    }
}

/// Two rates share a key exactly when they are the same pattern, both zero,
/// or both NaN.
pub proof fn lemma_equal_keys(a: Rate, b: Rate)
    ensures
        a.order_key() == b.order_key() <==> (a == b || (a.magnitude() == 0 && b.magnitude() == 0)
            || (a.is_nan() && b.is_nan())),
{
}

/// A NaN ranks below every number, and below no rate.
pub proof fn lemma_nan_is_least(a: Rate, b: Rate)
    requires
        a.is_nan(),
    ensures
        a.order_key() <= b.order_key(),
        !b.is_nan() ==> a.order_key() < b.order_key(),
{
}

/// Among numbers of one sign the key follows the magnitude: upward for
/// positive numbers, downward for negative ones; a negative number never
/// ranks above a positive one.
pub proof fn lemma_key_follows_sign_and_magnitude(a: Rate, b: Rate)
    requires
        !a.is_nan(),
        !b.is_nan(),
    ensures
        !a.is_negative() && !b.is_negative() ==> (a.order_key() <= b.order_key() <==> a.magnitude()
            <= b.magnitude()),
        a.is_negative() && b.is_negative() ==> (a.order_key() <= b.order_key() <==> a.magnitude()
            >= b.magnitude()),
        a.is_negative() && !b.is_negative() ==> a.order_key() <= b.order_key(),
{
}

/// A ratio held as a whole number of hundredths: the value is
/// `hundredths / 100`.
#[derive(Clone, Copy, Debug, PartialEq, Eq, Structural)]
pub struct Ratio {
    pub hundredths: u32,
}

impl Ratio {
    /// The denominator of every ratio.
    pub open spec fn denominator() -> int {
        100
    }

    /// The numerator over [`Ratio::denominator`].
    pub open spec fn numerator(self) -> int {
        self.hundredths as int
    }

    /// The ratio of a percentage: `percent / 100`.
    pub fn from_percent(percent: u32) -> (r: Ratio)
        ensures
            r.numerator() == percent,
            r == (Ratio { hundredths: percent }),
    {
        Ratio { hundredths: percent }
    }
}

} // verus!
