//! Numbers of the language: IEEE 754 double-precision values, each held by its
//! 64-bit pattern. Ordering and equality are decided here on the bits;
//! arithmetic and the conversion from integers are left to `rustc_apfloat`.
use rustc_apfloat::Float;
use vstd::prelude::*;

verus! {

/// The bit that holds the sign.
pub const SIGN_BIT: u64 = 0x8000_0000_0000_0000;

/// The pattern of positive infinity: every pattern whose magnitude is larger
/// is a NaN.
pub const INFINITY_BITS: u64 = 0x7FF0_0000_0000_0000;

/// The bits of the double nearest to the integer `n`.
pub uninterp spec fn double_from_int(n: i64) -> u64;

/// The bits of the sum of the doubles with bits `a` and `b`.
pub uninterp spec fn double_sum(a: u64, b: u64) -> u64;

/// The bits of the difference of the doubles with bits `a` and `b`.
pub uninterp spec fn double_difference(a: u64, b: u64) -> u64;

/// The bits of the product of the doubles with bits `a` and `b`.
pub uninterp spec fn double_product(a: u64, b: u64) -> u64;

/// The bits of the quotient of the doubles with bits `a` and `b`.
pub uninterp spec fn double_quotient(a: u64, b: u64) -> u64;

/// Calls `rustc_apfloat::Float::from_i128` for `ieee::Double`, which rounds to
/// the nearest double, ties to even. The contract only names the result: the
/// conversion is a function of the integer alone.
#[verifier::external_body]
fn apfloat_from_int(n: i64) -> (r: u64)
    ensures
        r == double_from_int(n),
{
    rustc_apfloat::ieee::Double::from_i128(n as i128).value.to_bits() as u64
}

/// Calls the `Add` of `rustc_apfloat::ieee::Double` (round to nearest, ties to
/// even) on the doubles with the given bits. The contract only names the
/// result: the sum is a function of the two patterns alone.
#[verifier::external_body]
fn apfloat_add(a: u64, b: u64) -> (r: u64)
    ensures
        r == double_sum(a, b),
{
    let x = rustc_apfloat::ieee::Double::from_bits(a as u128);
    let y = rustc_apfloat::ieee::Double::from_bits(b as u128);
    (x + y).value.to_bits() as u64
}

/// Calls the `Sub` of `rustc_apfloat::ieee::Double` (round to nearest, ties to
/// even) on the doubles with the given bits. The contract only names the
/// result: the difference is a function of the two patterns alone.
#[verifier::external_body]
fn apfloat_sub(a: u64, b: u64) -> (r: u64)
    ensures
        r == double_difference(a, b),
{
    let x = rustc_apfloat::ieee::Double::from_bits(a as u128);
    let y = rustc_apfloat::ieee::Double::from_bits(b as u128);
    (x - y).value.to_bits() as u64
}

/// Calls the `Mul` of `rustc_apfloat::ieee::Double` (round to nearest, ties to
/// even) on the doubles with the given bits. The contract only names the
/// result: the product is a function of the two patterns alone.
#[verifier::external_body]
fn apfloat_mul(a: u64, b: u64) -> (r: u64)
    ensures
        r == double_product(a, b),
{
    let x = rustc_apfloat::ieee::Double::from_bits(a as u128);
    let y = rustc_apfloat::ieee::Double::from_bits(b as u128);
    (x * y).value.to_bits() as u64
}

/// Calls the `Div` of `rustc_apfloat::ieee::Double` (round to nearest, ties to
/// even) on the doubles with the given bits. The contract only names the
/// result: the quotient is a function of the two patterns alone.
#[verifier::external_body]
fn apfloat_div(a: u64, b: u64) -> (r: u64)
    ensures
        r == double_quotient(a, b),
{
    let x = rustc_apfloat::ieee::Double::from_bits(a as u128);
    let y = rustc_apfloat::ieee::Double::from_bits(b as u128);
    (x / y).value.to_bits() as u64
}

/// An IEEE 754 double, held by its bit pattern.
#[derive(Debug, Clone, Copy, PartialEq, Eq, Structural)]
pub struct Double {
    pub bits: u64,
}

impl Double {
    /// The pattern without its sign bit.
    pub open spec fn magnitude(self) -> int {
        if self.bits >= SIGN_BIT {
            self.bits - SIGN_BIT
        } else {
            self.bits as int
        }
    }

    /// Whether the sign bit is set.
    pub open spec fn is_negative(self) -> bool {
        self.bits >= SIGN_BIT
    }

    /// Whether the value is not a number.
    pub open spec fn is_nan(self) -> bool {
        self.magnitude() > INFINITY_BITS
    }

    /// Whether the value is zero, of either sign.
    pub open spec fn is_zero(self) -> bool {
        self.magnitude() == 0
    }

    /// The place of a value that is no NaN on the number line: doubles are
    /// ordered as their patterns read in sign and magnitude, and the two zeros
    /// share one place.
    pub open spec fn rank(self) -> int {
        if self.is_negative() {
            -self.magnitude()
        } else {
            self.magnitude()
        }
    }

    /// `self < other` as IEEE 754 orders doubles: false where either is NaN.
    pub open spec fn lt(self, other: Double) -> bool {
        !self.is_nan() && !other.is_nan() && self.rank() < other.rank()
    }

    /// `self <= other` as IEEE 754 orders doubles: false where either is NaN.
    pub open spec fn le(self, other: Double) -> bool {
        !self.is_nan() && !other.is_nan() && self.rank() <= other.rank()
    }

    /// `self == other` as IEEE 754 compares doubles: a NaN equals nothing, and
    /// the two zeros are equal.
    pub open spec fn same(self, other: Double) -> bool {
        !self.is_nan() && !other.is_nan() && self.rank() == other.rank()
    }

    /// The double with the given bits.
    pub fn from_bits(bits: u64) -> (r: Double)
        ensures
            r.bits == bits,
    {
        Double { bits }
    }

    /// The double nearest to `n`.
    pub fn from_int(n: i64) -> (r: Double)
        ensures
            r.bits == double_from_int(n),
    {
        Double { bits: apfloat_from_int(n) }
    }

    /// The pattern without its sign bit.
    fn magnitude_bits(&self) -> (r: u64)
        ensures
            r == self.magnitude(),
            r < SIGN_BIT,
    {
        if self.bits >= SIGN_BIT {
            self.bits - SIGN_BIT
        } else {
            self.bits
        }
    }

    /// The place on the number line, as a signed integer.
    fn rank_value(&self) -> (r: i64)
        ensures
            r == self.rank(),
    {
        let m: u64 = self.magnitude_bits();
        if self.bits >= SIGN_BIT {
            -(m as i64)
        } else {
            m as i64
        }
    }

    /// Whether the value is not a number.
    pub fn check_nan(&self) -> (r: bool)
        ensures
            r == self.is_nan(),
    {
        self.magnitude_bits() > INFINITY_BITS
    }

    /// Whether the value is zero, of either sign.
    pub fn check_zero(&self) -> (r: bool)
        ensures
            r == self.is_zero(),
    {
        self.magnitude_bits() == 0
    }

    /// `self < other`.
    pub fn less_than(&self, other: &Double) -> (r: bool)
        ensures
            r == self.lt(*other),
    {
        !self.check_nan() && !other.check_nan() && self.rank_value() < other.rank_value()
    }

    /// `self <= other`.
    pub fn at_most(&self, other: &Double) -> (r: bool)
        ensures
            r == self.le(*other),
    {
        !self.check_nan() && !other.check_nan() && self.rank_value() <= other.rank_value()
    }

    /// `self == other`, as numbers.
    pub fn equals(&self, other: &Double) -> (r: bool)
        ensures
            r == self.same(*other),
    {
        !self.check_nan() && !other.check_nan() && self.rank_value() == other.rank_value()
    }

    /// The sum, rounded to the nearest double.
    pub fn plus(&self, other: &Double) -> (r: Double)
        ensures
            r.bits == double_sum(self.bits, other.bits),
    {
        Double { bits: apfloat_add(self.bits, other.bits) }
    }

    /// The difference, rounded to the nearest double.
    pub fn minus(&self, other: &Double) -> (r: Double)
        ensures
            r.bits == double_difference(self.bits, other.bits),
    {
        Double { bits: apfloat_sub(self.bits, other.bits) }
    }

    /// The product, rounded to the nearest double.
    pub fn times(&self, other: &Double) -> (r: Double)
        ensures
            r.bits == double_product(self.bits, other.bits),
    {
        Double { bits: apfloat_mul(self.bits, other.bits) }
    }

    /// The quotient, rounded to the nearest double.
    pub fn divided_by(&self, other: &Double) -> (r: Double)
        ensures
            r.bits == double_quotient(self.bits, other.bits),
    {
        Double { bits: apfloat_div(self.bits, other.bits) }
    }
}

} // verus!
