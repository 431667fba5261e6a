use vstd::arithmetic::power2::{lemma2_to64, pow2};
use vstd::bits::lemma_u32_shr_is_div;
use vstd::prelude::*;

verus! {

/// Bit pattern of positive infinity; every larger magnitude is not a number.
pub const INFINITY_BITS: u32 = 0x7f80_0000;

/// Weight of the sign bit; also one more than the largest magnitude.
pub const SIGN_BIT: u32 = 0x8000_0000;

/// Number of values the fraction field can take.
pub const FRACTION_RANGE: u32 = 0x80_0000;

/// Biased exponent of the values in `1 <= v < 2`.
pub const EXPONENT_OF_ONE: u32 = 127;

/// Biased exponent from which on a finite value is at least 256.
pub const EXPONENT_OF_256: u32 = 135;

/// A temperature in degrees Celsius.
///
/// The value is an IEEE 754 single-precision number, held as its 32-bit
/// pattern: one sign bit, eight exponent bits, twenty-three fraction bits.
/// Sensors deliver such numbers, including "not a number" when a read
/// failed, so the type keeps every pattern apart and orders them the way the
/// hardware comparison does.
#[derive(Clone, Copy, Debug)]
pub struct Celsius {
    pub bits: u32,
}

impl Celsius {
    /// The pattern without its sign bit.
    pub open spec fn magnitude(self) -> int {
        self.bits as int % SIGN_BIT as int
    }

    /// Whether the sign bit is set (true of `-0.0` too).
    pub open spec fn negative(self) -> bool {
        self.bits >= SIGN_BIT
    }

    /// Whether the pattern encodes "not a number".
    pub open spec fn nan(self) -> bool {
        self.magnitude() > INFINITY_BITS as int
    }

    /// The biased exponent field.
    pub open spec fn exponent(self) -> int {
        self.magnitude() / FRACTION_RANGE as int
    }

    /// The fraction field.
    pub open spec fn fraction(self) -> int {
        self.magnitude() % FRACTION_RANGE as int
    }

    /// Position of a number on the line of all numbers: equal for equal
    /// values (both zeros sit at 0), smaller for smaller values. Meaningful
    /// only where `!self.nan()`.
    pub open spec fn ordinal(self) -> int {
        if self.negative() {
            -self.magnitude()
        } else {
            self.magnitude()
        }
    }

    /// The strict order of the numbers: neither side is "not a number" and
    /// `self` is the greater value.
    pub open spec fn exceeds(self, other: Celsius) -> bool {
        !self.nan() && !other.nan() && self.ordinal() > other.ordinal()
    }

    /// The value cut toward zero and clamped to `0..=255`; "not a number"
    /// gives 0.
    ///
    /// A number with exponent field `e >= 1` and fraction field `f` has the
    /// magnitude `(2^23 + f) * 2^(e - 150)`. Below `e = 127` that is less
    /// than one, from `e = 135` on it is at least 256, and in between its
    /// whole part is `(2^23 + f) / 2^(150 - e)`.
    pub open spec fn truncated(self) -> int {
        if self.nan() || self.negative() || self.exponent() < EXPONENT_OF_ONE {
            0
        } else if self.exponent() >= EXPONENT_OF_256 {
            255
        } else {
            self.whole_part()
        }
    }

    /// The whole part of a number between one and 256: its significand
    /// `2^23 + f` without the `150 - e` lowest binary places, that is,
    /// divided by `2^(150 - e)`. The divisors are written out for the
    /// exponents from 127 to 134.
    pub open spec fn whole_part(self) -> int {
        let significand = FRACTION_RANGE + self.fraction();
        let e = self.exponent();
        if e <= 127 {
            significand / 0x80_0000
        } else if e == 128 {
            significand / 0x40_0000
        } else if e == 129 {
            significand / 0x20_0000
        } else if e == 130 {
            significand / 0x10_0000
        } else if e == 131 {
            significand / 0x8_0000
        } else if e == 132 {
            significand / 0x4_0000
        } else if e == 133 {
            significand / 0x2_0000
        } else {
            significand / 0x1_0000
        }
    }

    /// Wraps a bit pattern.
    pub fn from_bits(bits: u32) -> (celsius: Celsius)
        ensures
            celsius.bits == bits,
    {
        Celsius { bits }
    }

    /// The bit pattern.
    pub fn to_bits(&self) -> (bits: u32)
        ensures
            bits == self.bits,
    {
        self.bits
    }

    /// Whether the reading is "not a number".
    pub fn is_nan(&self) -> (nan: bool)
        ensures
            nan == self.nan(),
    {
        self.bits % SIGN_BIT > INFINITY_BITS
    }

    /// Whether this temperature is strictly higher than `other`. False as
    /// soon as either side is "not a number".
    pub fn warmer_than(&self, other: &Celsius) -> (warmer: bool)
        ensures
            warmer == self.exceeds(*other),
    {
        if self.is_nan() || other.is_nan() {
            return false;
        }
        let mine: u32 = self.bits % SIGN_BIT;
        let theirs: u32 = other.bits % SIGN_BIT;
        if self.bits >= SIGN_BIT {
            other.bits >= SIGN_BIT && mine < theirs
        } else if other.bits >= SIGN_BIT {
            mine > 0 || theirs > 0
        } else {
            mine > theirs
        }
    }

    /// The temperature in whole degrees, as far as a byte can hold it.
    pub fn whole_degrees(&self) -> (degrees: u8)
        ensures
            degrees == self.truncated(),
    {
        if self.is_nan() || self.bits >= SIGN_BIT {
            return 0;
        }
        let exponent: u32 = self.bits / FRACTION_RANGE;
        if exponent < EXPONENT_OF_ONE {
            return 0;
        }
        if exponent >= EXPONENT_OF_256 {
            return 255;
        }
        let significand: u32 = FRACTION_RANGE + self.bits % FRACTION_RANGE;
        let shift: u32 = 150 - exponent;
        let whole: u32 = significand >> shift;
        proof {
            lemma_u32_shr_is_div(significand, shift);
            lemma2_to64();
        }
        whole as u8
    }
}

/// Between one and 256 the whole part is the significand divided by
/// `2^(150 - e)`, and it is the whole part of a number from `2^(e - 127)` up
/// to, but not including, `2^(e - 126)`.
pub proof fn lemma_whole_part_is_quotient(c: Celsius)
    requires
        EXPONENT_OF_ONE <= c.exponent() < EXPONENT_OF_256,
    ensures
        c.whole_part() == (FRACTION_RANGE + c.fraction()) / (pow2((150 - c.exponent()) as nat) as int),
        pow2((c.exponent() - 127) as nat) <= c.whole_part() < pow2((c.exponent() - 126) as nat),
{
    lemma2_to64();
}

/// The whole degrees always fit a byte.
pub proof fn lemma_truncated_fits_byte(c: Celsius)
    ensures
        0 <= c.truncated() <= 255,
{
}

} // verus!
