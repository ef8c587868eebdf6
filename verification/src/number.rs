//! Numbers as a record carries them: integers, or binary64 numbers held by
//! their bit patterns, and their conversion to whole 64-bit integers.

use vstd::arithmetic::power2::{lemma2_to64, lemma_pow2_strictly_increases, lemma_pow2_unfold, pow2};
use vstd::prelude::*;

verus! {

/// The weight of the implicit leading bit of a normal number: 2^52.
pub const HIDDEN_BIT: u64 = 0x10_0000_0000_0000;

/// The weight of the sign bit: 2^63.
pub const SIGN_BIT: u64 = 0x8000_0000_0000_0000;

/// The biased exponent that marks infinities and NaNs.
pub const EXPONENT_SPECIAL: u64 = 2047;

/// The biased exponent at which the significand is scaled by 2^0.
pub const EXPONENT_UNIT: u64 = 1075;

/// An IEEE 754 binary64 number, held by its bit pattern.
///
/// Two values are equal when their bit patterns are.
#[derive(Clone, Copy, Debug, PartialEq, Eq, Structural)]
pub struct Binary64 {
    pub bits: u64,
}

impl Binary64 {
    /// Whether the sign bit is set.
    pub open spec fn negative(self) -> bool {
        self.bits >= SIGN_BIT
    }

    /// The biased exponent field, 11 bits wide.
    pub open spec fn exponent(self) -> nat {
        ((self.bits as nat) / (HIDDEN_BIT as nat)) % 2048
    }

    /// The fraction field, 52 bits wide.
    pub open spec fn fraction(self) -> nat {
        (self.bits as nat) % (HIDDEN_BIT as nat)
    }

    pub open spec fn is_nan(self) -> bool {
        self.exponent() == EXPONENT_SPECIAL && self.fraction() != 0
    }

    pub open spec fn is_infinite(self) -> bool {
        self.exponent() == EXPONENT_SPECIAL && self.fraction() == 0
    }

    /// The integer `m` of a finite number's magnitude `m * 2^(scale - 1075)`.
    pub open spec fn significand(self) -> nat {
        if self.exponent() == 0 {
            self.fraction()
        } else {
            self.fraction() + HIDDEN_BIT as nat
        }
    }

    /// The exponent `e` of a finite number's magnitude `m * 2^(e - 1075)`.
    pub open spec fn scale(self) -> nat {
        if self.exponent() == 0 {
            1
        } else {
            self.exponent()
        }
    }

    /// The magnitude of a finite number, rounded down to a whole number.
    pub open spec fn whole_magnitude(self) -> nat {
        if self.scale() >= EXPONENT_UNIT {
            self.significand() * pow2((self.scale() - EXPONENT_UNIT) as nat)
        } else {
            self.significand() / pow2((EXPONENT_UNIT - self.scale()) as nat)
        }
    }

    /// The number rounded toward zero and clamped to the 64-bit signed range;
    /// zero for a NaN.
    pub open spec fn truncated(self) -> int {
        if self.is_nan() {
            0
        } else if self.negative() {
            if self.is_infinite() || self.whole_magnitude() >= SIGN_BIT {
                i64::MIN as int
            } else {
                -(self.whole_magnitude() as int)
            }
        } else {
            if self.is_infinite() || self.whole_magnitude() > i64::MAX {
                i64::MAX as int
            } else {
                self.whole_magnitude() as int
            }
        }
    }

    pub fn from_bits(bits: u64) -> (number: Binary64)
        ensures
            number.bits == bits,
    {
        Binary64 { bits }
    }

    pub fn to_bits(&self) -> (bits: u64)
        ensures
            bits == self.bits,
    {
        self.bits
    }

    /// Rounds toward zero to a 64-bit signed integer, clamping what lies
    /// outside its range and taking a NaN to zero.
    pub fn truncate(&self) -> (whole: i64)
        ensures
            whole == self.truncated(),
    {
        let negative = self.bits >= SIGN_BIT;
        let exponent: u64 = (self.bits / HIDDEN_BIT) % 2048;
        let fraction: u64 = self.bits % HIDDEN_BIT;
        if exponent == EXPONENT_SPECIAL {
            if fraction != 0 {
                0
            } else if negative {
                i64::MIN
            } else {
                i64::MAX
            }
        } else if exponent < 1023 {
            proof {
                lemma_small_magnitude(*self);
            }
            0
        } else if exponent >= 1086 {
            proof {
                lemma_large_magnitude(*self);
            }
            if negative {
                i64::MIN
            } else {
                i64::MAX
            }
        } else {
            let significand: u64 = fraction + HIDDEN_BIT;
            let magnitude: u64 = if exponent >= EXPONENT_UNIT {
                let factor: u64 = power_of_two(exponent - EXPONENT_UNIT);
                proof {
                    lemma2_to64();
                    lemma_pow2_bound((exponent - EXPONENT_UNIT) as nat, 10);
                    assert(significand * factor < 0x8000_0000_0000_0000) by (nonlinear_arith)
                        requires
                            significand < 0x20_0000_0000_0000,
                            factor <= 1024,
                    ;
                }
                significand * factor
            } else {
                let factor: u64 = power_of_two(EXPONENT_UNIT - exponent);
                significand / factor
            };
            assert(magnitude == self.whole_magnitude());
            assert(magnitude < SIGN_BIT) by {
                if exponent < EXPONENT_UNIT {
                    lemma_pow2_pos_div(significand as nat, (EXPONENT_UNIT - exponent) as nat);
                }
            }
            if negative {
                -(magnitude as i64)
            } else {
                magnitude as i64
            }
        }
    }
}

/// A number as structured data carries it.
#[derive(Clone, Copy, Debug, PartialEq, Eq, Structural)]
pub enum Number {
    Unsigned(u64),
    Signed(i64),
    Real(Binary64),
}

impl Number {
    /// The number rounded toward zero and clamped to the 64-bit signed range;
    /// zero for a NaN.
    pub open spec fn whole(self) -> int {
        match self {
            Number::Unsigned(value) => if value > i64::MAX {
                i64::MAX as int
            } else {
                value as int
            },
            Number::Signed(value) => value as int,
            Number::Real(value) => value.truncated(),
        }
    }

    /// Rounds toward zero to a 64-bit signed integer, clamping what lies
    /// outside its range and taking a NaN to zero.
    pub fn truncate(&self) -> (whole: i64)
        ensures
            whole == self.whole(),
    {
        match self {
            Number::Unsigned(value) => if *value > i64::MAX as u64 {
                i64::MAX
            } else {
                *value as i64
            },
            Number::Signed(value) => *value,
            Number::Real(value) => value.truncate(),
        }
    }
}

/// Two to the power `exponent`.
fn power_of_two(exponent: u64) -> (power: u64)
    requires
        exponent < 64,
    ensures
        power == pow2(exponent as nat),
        power > 0,
{
    let mut power: u64 = 1;
    let mut done: u64 = 0;
    proof {
        lemma2_to64();
    }
    while done < exponent
        invariant
            done <= exponent < 64,
            power == pow2(done as nat),
            power > 0,
        decreases exponent - done,
    {
        proof {
            lemma_pow2_unfold((done + 1) as nat);
            lemma_pow2_bound((done + 1) as nat, 63);
            lemma2_to64();
            lemma2_to64_rest_63();
        }
        power = power * 2;
        done = done + 1;
    }
    power
}

proof fn lemma2_to64_rest_63()
    ensures
        pow2(63) == 0x8000_0000_0000_0000,
{
    vstd::arithmetic::power2::lemma2_to64_rest();
}

/// Powers of two grow with their exponents.
proof fn lemma_pow2_bound(low: nat, high: nat)
    requires
        low <= high,
    ensures
        pow2(low) <= pow2(high),
{
    if low < high {
        lemma_pow2_strictly_increases(low, high);
    }
}

/// Dividing by a power of two does not make a number larger.
proof fn lemma_pow2_pos_div(value: nat, exponent: nat)
    ensures
        value / pow2(exponent) <= value,
{
    vstd::arithmetic::power2::lemma_pow2_pos(exponent);
    let divisor: nat = pow2(exponent);
    assert(value / divisor <= value) by (nonlinear_arith)
        requires
            divisor > 0,
    ;
}

/// A number below one in magnitude has no whole part.
proof fn lemma_small_magnitude(number: Binary64)
    requires
        number.exponent() < 1023,
    ensures
        number.whole_magnitude() == 0,
{
    let shift: nat = (EXPONENT_UNIT - number.scale()) as nat;
    lemma2_to64_rest_53();
    lemma_pow2_bound(53, shift);
    let value: nat = number.significand();
    let divisor: nat = pow2(shift);
    assert(value / divisor == 0) by (nonlinear_arith)
        requires
            value < divisor,
    ;
}

proof fn lemma2_to64_rest_53()
    ensures
        pow2(53) == 0x20_0000_0000_0000,
{
    vstd::arithmetic::power2::lemma2_to64_rest();
}

/// A finite number with a scale of 2^11 or more has a whole part of at least
/// 2^63.
proof fn lemma_large_magnitude(number: Binary64)
    requires
        1086 <= number.exponent() < EXPONENT_SPECIAL,
    ensures
        number.whole_magnitude() >= SIGN_BIT,
{
    let shift: nat = (number.scale() - EXPONENT_UNIT) as nat;
    lemma2_to64();
    lemma_pow2_bound(11, shift);
    let value: nat = number.significand();
    let factor: nat = pow2(shift);
    assert(value * factor >= 0x8000_0000_0000_0000) by (nonlinear_arith)
        requires
            value >= 0x10_0000_0000_0000,
            factor >= 2048,
    ;
}

} // verus!
