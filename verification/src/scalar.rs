//! Fixed-point real numbers with 32 fractional bits and saturating arithmetic.

use vstd::prelude::*;

verus! {

/// Raw value of the number one: `2^32`.
pub const ONE_RAW: i64 = 0x1_0000_0000;

/// Raw value of the tolerance used to nudge points off a surface and to
/// recognise vanishing denominators (about `1e-5`).
pub const EPSILON_RAW: i64 = 42950;

/// Clamps an integer into the range of `i64`.
pub open spec fn saturate(v: int) -> i64 {
    if v > i64::MAX {
        i64::MAX
    } else if v < i64::MIN {
        i64::MIN
    } else {
        v as i64
    }
}

/// Quotient rounded toward zero. Unspecified for `d == 0`.
pub open spec fn quotient(n: int, d: int) -> int {
    if d > 0 {
        if n >= 0 {
            n / d
        } else {
            -((-n) / d)
        }
    } else {
        if n >= 0 {
            -(n / (-d))
        } else {
            (-n) / (-d)
        }
    }
}

/// A real number `raw / 2^32`.
#[derive(Clone, Copy, Debug, PartialEq, Eq, Structural)]
pub struct Scalar {
    pub raw: i64,
}

fn saturate_wide(v: i128) -> (r: i64)
    ensures
        r == saturate(v as int),
{
    if v > i64::MAX as i128 {
        i64::MAX
    } else if v < i64::MIN as i128 {
        i64::MIN
    } else {
        v as i64
    }
}

fn magnitude_of(v: i64) -> (r: u128)
    ensures
        r == (if v >= 0 { v as int } else { -(v as int) }),
{
    if v >= 0 {
        v as u128
    } else {
        (-(v as i128)) as u128
    }
}

/// Attaches a sign to a magnitude and clamps.
fn signed_saturate(negative: bool, m: u128) -> (r: i64)
    ensures
        r == saturate(if negative { -(m as int) } else { m as int }),
{
    if m > i64::MAX as u128 {
        if negative {
            i64::MIN
        } else {
            i64::MAX
        }
    } else {
        let s: i64 = m as i64;
        if negative {
            -s
        } else {
            s
        }
    }
}

impl Scalar {
    pub open spec fn spec_zero() -> Scalar {
        Scalar { raw: 0 }
    }

    pub open spec fn spec_one() -> Scalar {
        Scalar { raw: ONE_RAW }
    }

    pub open spec fn spec_epsilon() -> Scalar {
        Scalar { raw: EPSILON_RAW }
    }

    /// The whole number `v`, as far as it fits.
    pub open spec fn spec_from_int(v: int) -> Scalar {
        Scalar { raw: saturate(v * ONE_RAW) }
    }

    pub open spec fn spec_add(self, o: Scalar) -> Scalar {
        Scalar { raw: saturate(self.raw + o.raw) }
    }

    pub open spec fn spec_sub(self, o: Scalar) -> Scalar {
        Scalar { raw: saturate(self.raw - o.raw) }
    }

    pub open spec fn spec_neg(self) -> Scalar {
        Scalar { raw: saturate(-self.raw) }
    }

    pub open spec fn spec_abs(self) -> Scalar {
        if self.raw >= 0 {
            self
        } else {
            self.spec_neg()
        }
    }

    /// Product, rounded toward zero, saturating.
    #[verifier::opaque]
    pub open spec fn spec_mul(self, o: Scalar) -> Scalar {
        Scalar { raw: saturate(quotient(self.raw * o.raw, ONE_RAW as int)) }
    }

    /// Quotient, rounded toward zero, saturating. Dividing by zero gives the
    /// extreme value of the dividend's sign, and zero for `0 / 0`.
    #[verifier::opaque]
    pub open spec fn spec_div(self, o: Scalar) -> Scalar {
        if o.raw == 0 {
            if self.raw > 0 {
                Scalar { raw: i64::MAX }
            } else if self.raw < 0 {
                Scalar { raw: i64::MIN }
            } else {
                Scalar { raw: 0 }
            }
        } else {
            Scalar { raw: saturate(quotient(self.raw * ONE_RAW, o.raw as int)) }
        }
    }

    pub fn zero() -> (r: Scalar)
        ensures
            r == Scalar::spec_zero(),
    {
        Scalar { raw: 0 }
    }

    pub fn one() -> (r: Scalar)
        ensures
            r == Scalar::spec_one(),
    {
        Scalar { raw: ONE_RAW }
    }

    pub fn epsilon() -> (r: Scalar)
        ensures
            r == Scalar::spec_epsilon(),
    {
        Scalar { raw: EPSILON_RAW }
    }

    /// The whole number `v`, exactly.
    pub fn from_int(v: i32) -> (r: Scalar)
        ensures
            r == Scalar::spec_from_int(v as int),
            r.raw == v * ONE_RAW,
    {
        Scalar { raw: (v as i64) * ONE_RAW }
    }

    pub fn add(self, o: Scalar) -> (r: Scalar)
        ensures
            r == self.spec_add(o),
    {
        Scalar { raw: saturate_wide(self.raw as i128 + o.raw as i128) }
    }

    pub fn sub(self, o: Scalar) -> (r: Scalar)
        ensures
            r == self.spec_sub(o),
    {
        Scalar { raw: saturate_wide(self.raw as i128 - o.raw as i128) }
    }

    pub fn neg(self) -> (r: Scalar)
        ensures
            r == self.spec_neg(),
    {
        Scalar { raw: saturate_wide(-(self.raw as i128)) }
    }

    pub fn abs(self) -> (r: Scalar)
        ensures
            r == self.spec_abs(),
    {
        if self.raw >= 0 {
            self
        } else {
            self.neg()
        }
    }

    pub fn mul(self, o: Scalar) -> (r: Scalar)
        ensures
            r == self.spec_mul(o),
    {
        reveal(Scalar::spec_mul);
        let a: u128 = magnitude_of(self.raw);
        let b: u128 = magnitude_of(o.raw);
        assert(a * b <= 0x8000_0000_0000_0000 * 0x8000_0000_0000_0000) by (nonlinear_arith)
            requires
                a <= 0x8000_0000_0000_0000,
                b <= 0x8000_0000_0000_0000,
        ;
        let p: u128 = a * b;
        let q: u128 = p / (ONE_RAW as u128);
        let negative: bool = (self.raw < 0) != (o.raw < 0);
        proof {
            let x = self.raw as int;
            let y = o.raw as int;
            assert(x * y == (if negative { -(a * b) } else { a * b })) by (nonlinear_arith)
                requires
                    a == (if x >= 0 { x } else { -x }),
                    b == (if y >= 0 { y } else { -y }),
                    negative == ((x < 0) != (y < 0)),
            ;
        }
        Scalar { raw: signed_saturate(negative, q) }
    }

    pub fn div(self, o: Scalar) -> (r: Scalar)
        ensures
            r == self.spec_div(o),
    {
        reveal(Scalar::spec_div);
        if o.raw == 0 {
            if self.raw > 0 {
                Scalar { raw: i64::MAX }
            } else if self.raw < 0 {
                Scalar { raw: i64::MIN }
            } else {
                Scalar { raw: 0 }
            }
        } else {
            let a: u128 = magnitude_of(self.raw);
            let b: u128 = magnitude_of(o.raw);
            assert(a * 0x1_0000_0000 <= 0x8000_0000_0000_0000 * 0x1_0000_0000) by (nonlinear_arith)
                requires
                    a <= 0x8000_0000_0000_0000,
            ;
            let n: u128 = a * (ONE_RAW as u128);
            let q: u128 = n / b;
            let negative: bool = (self.raw < 0) != (o.raw < 0);
            Scalar { raw: signed_saturate(negative, q) }
        }
    }

    pub fn lt(self, o: Scalar) -> (r: bool)
        ensures
            r == (self.raw < o.raw),
    {
        self.raw < o.raw
    }

    pub fn le(self, o: Scalar) -> (r: bool)
        ensures
            r == (self.raw <= o.raw),
    {
        self.raw <= o.raw
    }

    pub fn gt(self, o: Scalar) -> (r: bool)
        ensures
            r == (self.raw > o.raw),
    {
        self.raw > o.raw
    }

    pub fn ge(self, o: Scalar) -> (r: bool)
        ensures
            r == (self.raw >= o.raw),
    {
        self.raw >= o.raw
    }

    pub open spec fn spec_min(self, o: Scalar) -> Scalar {
        if self.raw <= o.raw {
            self
        } else {
            o
        }
    }

    pub open spec fn spec_max(self, o: Scalar) -> Scalar {
        if self.raw >= o.raw {
            self
        } else {
            o
        }
    }

    pub fn min(self, o: Scalar) -> (r: Scalar)
        ensures
            r == self.spec_min(o),
    {
        if self.raw <= o.raw {
            self
        } else {
            o
        }
    }

    pub fn max(self, o: Scalar) -> (r: Scalar)
        ensures
            r == self.spec_max(o),
    {
        if self.raw >= o.raw {
            self
        } else {
            o
        }
    }

    /// The fraction `n / d` of two whole numbers.
    pub open spec fn spec_ratio(n: int, d: int) -> Scalar {
        Scalar::spec_from_int(n).spec_div(Scalar::spec_from_int(d))
    }

    pub fn ratio(n: i32, d: i32) -> (r: Scalar)
        ensures
            r == Scalar::spec_ratio(n as int, d as int),
    {
        Scalar::from_int(n).div(Scalar::from_int(d))
    }

    /// A count as a number; counts of `2^31` and more saturate.
    pub open spec fn spec_from_usize(v: usize) -> Scalar {
        Scalar { raw: saturate(v as int * ONE_RAW as int) }
    }

    pub fn from_usize(v: usize) -> (r: Scalar)
        ensures
            r == Scalar::spec_from_usize(v),
    {
        if v >= 0x8000_0000 {
            assert(v as int * ONE_RAW as int > i64::MAX) by (nonlinear_arith)
                requires
                    v >= 0x8000_0000,
            ;
            Scalar { raw: i64::MAX }
        } else {
            Scalar { raw: (v as i64) * ONE_RAW }
        }
    }
}

} // verus!
