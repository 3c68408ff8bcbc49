//! Square roots and whole-number powers of fixed-point numbers.

use vstd::prelude::*;
use crate::scalar::{Scalar, ONE_RAW};

verus! {

/// The integer square root: the largest `r` with `r * r <= n`.
pub open spec fn isqrt(n: nat) -> nat
    decreases n,
{
    if n == 0 {
        0
    } else {
        let r = isqrt((n - 1) as nat);
        if (r + 1) * (r + 1) <= n {
            r + 1
        } else {
            r
        }
    }
}

/// `isqrt(n)` squared does not exceed `n`, and the next square does.
pub proof fn lemma_isqrt_bounds(n: nat)
    ensures
        isqrt(n) * isqrt(n) <= n,
        n < (isqrt(n) + 1) * (isqrt(n) + 1),
    decreases n,
{
    if n > 0 {
        let r = isqrt((n - 1) as nat);
        lemma_isqrt_bounds((n - 1) as nat);
        let s = isqrt(n);
        if (r + 1) * (r + 1) <= n {
            assert(s == r + 1);
            assert(s * s == (r + 1) * (r + 1) && (r + 1) * (r + 1) < (s + 1) * (s + 1))
                by (nonlinear_arith)
                requires
                    s == r + 1,
            ;
        } else {
            assert(s == r);
        }
    } else {
        assert(isqrt(n) == 0);
        assert((0 + 1) * (0 + 1) == 1) by (nonlinear_arith);
    }
}

proof fn lemma_square_monotonic(a: nat, b: nat)
    requires
        a <= b,
    ensures
        a * a <= b * b,
{
    assert(a * a <= b * b) by (nonlinear_arith)
        requires
            a <= b,
    ;
}

/// Only `isqrt(n)` lies between the two squares that bracket `n`.
pub proof fn lemma_isqrt_unique(n: nat, r: nat)
    requires
        r * r <= n,
        n < (r + 1) * (r + 1),
    ensures
        r == isqrt(n),
{
    let s = isqrt(n);
    lemma_isqrt_bounds(n);
    if r < s {
        lemma_square_monotonic(r + 1, s);
    } else if s < r {
        lemma_square_monotonic(s + 1, r);
    }
}

/// Integer square root of a value below `2^96`.
fn isqrt_exec(n: u128) -> (r: u128)
    requires
        n < 0x1_0000_0000_0000_0000_0000_0000,
    ensures
        r == isqrt(n as nat),
        r < 0x1_0000_0000_0000,
{
    let mut lo: u128 = 0;
    let mut hi: u128 = 0x1_0000_0000_0000;
    assert(0x1_0000_0000_0000u128 * 0x1_0000_0000_0000u128 == 0x1_0000_0000_0000_0000_0000_0000u128)
        by (nonlinear_arith);
    while hi - lo > 1
        invariant
            lo < hi <= 0x1_0000_0000_0000,
            lo * lo <= n,
            n < hi * hi,
        decreases hi - lo,
    {
        let mid: u128 = lo + (hi - lo) / 2;
        assert(mid * mid <= 0x1_0000_0000_0000 * 0x1_0000_0000_0000) by (nonlinear_arith)
            requires
                mid <= 0x1_0000_0000_0000,
        ;
        if mid * mid <= n {
            lo = mid;
        } else {
            hi = mid;
        }
    }
    proof {
        lemma_isqrt_unique(n as nat, lo as nat);
    }
    lo
}

impl Scalar {
    /// Square root rounded down to the next representable number; zero for
    /// arguments that are not positive.
    pub open spec fn spec_sqrt(self) -> Scalar {
        if self.raw <= 0 {
            Scalar { raw: 0 }
        } else {
            Scalar { raw: isqrt((self.raw * ONE_RAW) as nat) as i64 }
        }
    }

    pub fn sqrt(self) -> (r: Scalar)
        ensures
            r == self.spec_sqrt(),
            0 <= r.raw < 0x1_0000_0000_0000,
    {
        if self.raw <= 0 {
            Scalar { raw: 0 }
        } else {
            let a: u128 = self.raw as u128;
            assert(a * 0x1_0000_0000 < 0x8000_0000_0000_0000 * 0x1_0000_0000) by (nonlinear_arith)
                requires
                    a < 0x8000_0000_0000_0000,
            ;
            let n: u128 = a * (ONE_RAW as u128);
            let r: u128 = isqrt_exec(n);
            Scalar { raw: r as i64 }
        }
    }

    /// The `n`-th power by repeated squaring, each product rounded toward zero.
    pub open spec fn spec_powi(self, n: nat) -> Scalar
        decreases n,
    {
        if n == 0 {
            Scalar::spec_one()
        } else {
            let h = self.spec_powi(n / 2);
            let sq = h.spec_mul(h);
            if n % 2 == 0 {
                sq
            } else {
                sq.spec_mul(self)
            }
        }
    }

    pub fn powi(self, n: u32) -> (r: Scalar)
        ensures
            r == self.spec_powi(n as nat),
        decreases n,
    {
        if n == 0 {
            Scalar::one()
        } else {
            let h = self.powi(n / 2);
            let sq = h.mul(h);
            if n % 2 == 0 {
                sq
            } else {
                sq.mul(self)
            }
        }
    }
}

} // verus!
