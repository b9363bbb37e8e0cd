//! Fixed-point scalars.
//!
//! A [`Scalar`] is a signed number with 32 fractional bits held in an `i64`. Every
//! operation is total: a result that leaves the representable range is clamped to
//! it, and a quotient is rounded toward zero.

use vstd::prelude::*;

verus! {

/// The raw value of the scalar one.
pub const ONE_RAW: i64 = 4294967296;

/// The raw value of the scalar one half.
pub const HALF_RAW: i64 = 2147483648;

/// The raw value of the tolerance below which a quantity counts as zero.
pub const EPSILON_RAW: i64 = 512;

/// The absolute value of an integer.
pub open spec fn magnitude(v: int) -> int {
    if v < 0 {
        -v
    } else {
        v
    }
}

/// The quotient of two integers, rounded toward zero.
pub open spec fn quotient(a: int, b: int) -> int
    recommends
        b != 0,
{
    if (a < 0) == (b < 0) {
        magnitude(a) / magnitude(b)
    } else {
        -(magnitude(a) / magnitude(b))
    }
}

/// The nearest integer that an `i64` can hold.
pub open spec fn saturate(v: int) -> int {
    if v < i64::MIN {
        i64::MIN as int
    } else if v > i64::MAX {
        i64::MAX as int
    } else {
        v
    }
}

/// A signed fixed-point number: `raw` counts units of 2^-32.
#[derive(Clone, Copy, Debug, PartialEq, Eq, Structural)]
pub struct Scalar {
    pub raw: i64,
}

impl View for Scalar {
    type V = int;

    open spec fn view(&self) -> int {
        self.raw as int
    }
}

/// The scalar whose raw value is `v` clamped to the representable range.
pub open spec fn scalar_of(v: int) -> Scalar {
    Scalar { raw: saturate(v) as i64 }
}

/// The absolute value of a raw number, widened.
pub(crate) fn widen_magnitude(raw: i64) -> (out: u128)
    ensures
        out == magnitude(raw as int),
        out <= 0x8000_0000_0000_0000,
{
    if raw < 0 {
        let wide: i128 = -(raw as i128);
        wide as u128
    } else {
        raw as u128
    }
}

/// Gives a magnitude its sign and clamps it.
fn narrow(negative: bool, mag: u128) -> (out: Scalar)
    ensures
        out == scalar_of(
            if negative {
                -(mag as int)
            } else {
                mag as int
            },
        ),
{
    if negative {
        if mag >= 0x8000_0000_0000_0000 {
            Scalar { raw: i64::MIN }
        } else {
            let low: i64 = mag as i64;
            Scalar { raw: -low }
        }
    } else {
        if mag > 0x7fff_ffff_ffff_ffff {
            Scalar { raw: i64::MAX }
        } else {
            Scalar { raw: mag as i64 }
        }
    }
}

pub proof fn lemma_product_magnitude(a: int, b: int)
    ensures
        magnitude(a * b) == magnitude(a) * magnitude(b),
        (a * b < 0) == ((a < 0) != (b < 0) && a != 0 && b != 0),
{
    assert(magnitude(a * b) == magnitude(a) * magnitude(b)) by (nonlinear_arith)
        requires
            true,
    {
        if a < 0 {
            assert((-a) * b == -(a * b));
        }
        if b < 0 {
            assert(a * (-b) == -(a * b));
            assert((-a) * (-b) == a * b);
        }
    }
    assert((a * b < 0) == ((a < 0) != (b < 0) && a != 0 && b != 0)) by (nonlinear_arith);
}

pub proof fn lemma_product_bound(a: int, b: int, la: int, lb: int)
    requires
        0 <= a <= la,
        0 <= b <= lb,
    ensures
        0 <= a * b <= la * lb,
{
    assert(0 <= a * b <= la * lb) by (nonlinear_arith)
        requires
            0 <= a <= la,
            0 <= b <= lb,
    ;
}

impl Scalar {
    /// The scalar zero.
    pub open spec fn spec_zero() -> Scalar {
        Scalar { raw: 0 }
    }

    /// The scalar one.
    pub open spec fn spec_one() -> Scalar {
        Scalar { raw: ONE_RAW }
    }

    /// The scalar one half.
    pub open spec fn spec_half() -> Scalar {
        Scalar { raw: HALF_RAW }
    }

    /// The tolerance below which a quantity counts as zero.
    pub open spec fn spec_epsilon() -> Scalar {
        Scalar { raw: EPSILON_RAW }
    }

    /// The whole number `n` as a scalar.
    pub open spec fn spec_from_int(n: i32) -> Scalar {
        Scalar { raw: (n as int * ONE_RAW as int) as i64 }
    }

    /// The clamped sum.
    pub open spec fn spec_plus(self, rhs: Scalar) -> Scalar {
        scalar_of(self@ + rhs@)
    }

    /// The clamped difference.
    pub open spec fn spec_minus(self, rhs: Scalar) -> Scalar {
        scalar_of(self@ - rhs@)
    }

    /// The clamped negation.
    pub open spec fn spec_neg(self) -> Scalar {
        scalar_of(-self@)
    }

    /// The clamped absolute value.
    pub open spec fn spec_abs(self) -> Scalar {
        scalar_of(magnitude(self@))
    }

    /// The clamped product, rounded toward zero.
    pub open spec fn spec_times(self, rhs: Scalar) -> Scalar {
        scalar_of(quotient(self@ * rhs@, ONE_RAW as int))
    }

    /// The clamped quotient, rounded toward zero. A non-zero number over zero is the
    /// bound of the range on its side; zero over zero is zero.
    pub open spec fn spec_over(self, rhs: Scalar) -> Scalar {
        if rhs@ == 0 {
            if self@ > 0 {
                Scalar { raw: i64::MAX }
            } else if self@ < 0 {
                Scalar { raw: i64::MIN }
            } else {
                Scalar { raw: 0 }
            }
        } else {
            scalar_of(quotient(self@ * ONE_RAW as int, rhs@))
        }
    }

    pub fn zero() -> (out: Scalar)
        ensures
            out == Scalar::spec_zero(),
    {
        Scalar { raw: 0 }
    }

    pub fn one() -> (out: Scalar)
        ensures
            out == Scalar::spec_one(),
    {
        Scalar { raw: ONE_RAW }
    }

    pub fn half() -> (out: Scalar)
        ensures
            out == Scalar::spec_half(),
    {
        Scalar { raw: HALF_RAW }
    }

    pub fn epsilon() -> (out: Scalar)
        ensures
            out == Scalar::spec_epsilon(),
    {
        Scalar { raw: EPSILON_RAW }
    }

    pub fn from_int(n: i32) -> (out: Scalar)
        ensures
            out == Scalar::spec_from_int(n),
            out@ == n * ONE_RAW,
    {
        let wide: i64 = n as i64;
        Scalar { raw: wide * ONE_RAW }
    }

    pub fn plus(self, rhs: Scalar) -> (out: Scalar)
        ensures
            out == self.spec_plus(rhs),
    {
        let wide: i128 = self.raw as i128 + rhs.raw as i128;
        if wide < 0 {
            narrow(true, (-wide) as u128)
        } else {
            narrow(false, wide as u128)
        }
    }

    pub fn minus(self, rhs: Scalar) -> (out: Scalar)
        ensures
            out == self.spec_minus(rhs),
    {
        let wide: i128 = self.raw as i128 - rhs.raw as i128;
        if wide < 0 {
            narrow(true, (-wide) as u128)
        } else {
            narrow(false, wide as u128)
        }
    }

    pub fn neg(self) -> (out: Scalar)
        ensures
            out == self.spec_neg(),
    {
        narrow(self.raw >= 0, widen_magnitude(self.raw))
    }

    pub fn abs(self) -> (out: Scalar)
        ensures
            out == self.spec_abs(),
    {
        narrow(false, widen_magnitude(self.raw))
    }

    pub fn times(self, rhs: Scalar) -> (out: Scalar)
        ensures
            out == self.spec_times(rhs),
    {
        let a: u128 = widen_magnitude(self.raw);
        let b: u128 = widen_magnitude(rhs.raw);
        proof {
            lemma_product_magnitude(self@, rhs@);
            lemma_product_bound(a as int, b as int, 0x8000_0000_0000_0000, 0x8000_0000_0000_0000);
        }
        let scaled: u128 = (a * b) / 4294967296;
        narrow((self.raw < 0) != (rhs.raw < 0), scaled)
    }

    pub fn over(self, rhs: Scalar) -> (out: Scalar)
        ensures
            out == self.spec_over(rhs),
    {
        if rhs.raw == 0 {
            if self.raw > 0 {
                Scalar { raw: i64::MAX }
            } else if self.raw < 0 {
                Scalar { raw: i64::MIN }
            } else {
                Scalar { raw: 0 }
            }
        } else {
            let a: u128 = widen_magnitude(self.raw);
            let b: u128 = widen_magnitude(rhs.raw);
            let scaled: u128 = (a * 4294967296) / b;
            narrow((self.raw < 0) != (rhs.raw < 0), scaled)
        }
    }

    /// Whether the number is strictly below `rhs`.
    pub fn less_than(self, rhs: Scalar) -> (out: bool)
        ensures
            out == (self@ < rhs@),
    {
        self.raw < rhs.raw
    }

    /// Whether the number is at most `rhs`.
    pub fn at_most(self, rhs: Scalar) -> (out: bool)
        ensures
            out == (self@ <= rhs@),
    {
        self.raw <= rhs.raw
    }
}

} // verus!
