//! Sine, cosine and tangent of fixed-point angles in radians.

use vstd::prelude::*;
use crate::scalar::Scalar;

verus! {

/// Raw value of pi.
pub const PI_RAW: i64 = 13493037705;

/// Raw value of half of pi.
pub const HALF_PI_RAW: i64 = 6746518852;

/// Raw value of twice pi.
pub const TWO_PI_RAW: i64 = 26986075409;

impl Scalar {
    pub open spec fn spec_pi() -> Scalar {
        Scalar { raw: PI_RAW }
    }

    pub fn pi() -> (r: Scalar)
        ensures
            r == Scalar::spec_pi(),
    {
        Scalar { raw: PI_RAW }
    }

    /// The angle brought into `[-pi/2, pi/2]` without changing its sine:
    /// first whole turns are removed, then the outer quarters are mirrored
    /// at `pi/2` and `-pi/2`.
    pub open spec fn spec_fold_angle(self) -> Scalar {
        let m = (if self.raw >= 0 { self.raw as int } else { -(self.raw as int) }) % (TWO_PI_RAW as int);
        let h = if m > PI_RAW { m - TWO_PI_RAW } else { m };
        let f = if h > HALF_PI_RAW {
            PI_RAW - h
        } else if h < -HALF_PI_RAW {
            -PI_RAW - h
        } else {
            h
        };
        Scalar { raw: (if self.raw >= 0 { f } else { -f }) as i64 }
    }

    fn fold_angle(self) -> (r: Scalar)
        ensures
            r == self.spec_fold_angle(),
            -HALF_PI_RAW <= r.raw <= HALF_PI_RAW,
    {
        let a: u128 = if self.raw >= 0 {
            self.raw as u128
        } else {
            (-(self.raw as i128)) as u128
        };
        let m: i64 = (a % (TWO_PI_RAW as u128)) as i64;
        let h: i64 = if m > PI_RAW {
            m - TWO_PI_RAW
        } else {
            m
        };
        let f: i64 = if h > HALF_PI_RAW {
            PI_RAW - h
        } else if h < -HALF_PI_RAW {
            -PI_RAW - h
        } else {
            h
        };
        if self.raw >= 0 {
            Scalar { raw: f }
        } else {
            Scalar { raw: -f }
        }
    }

    /// One step of the nested series: `1 - x2 * acc / d`.
    pub open spec fn spec_series_step(x2: Scalar, acc: Scalar, d: int) -> Scalar {
        Scalar::spec_one().spec_sub(x2.spec_mul(acc).spec_div(Scalar::spec_from_int(d)))
    }

    fn series_step(x2: Scalar, acc: Scalar, d: i32) -> (r: Scalar)
        ensures
            r == Scalar::spec_series_step(x2, acc, d as int),
    {
        Scalar::one().sub(x2.mul(acc).div(Scalar::from_int(d)))
    }

    /// The sine series up to the fifteenth power, in nested form.
    pub open spec fn spec_sin_series(self) -> Scalar {
        let x2 = self.spec_mul(self);
        let a7 = Scalar::spec_series_step(x2, Scalar::spec_one(), 210);
        let a6 = Scalar::spec_series_step(x2, a7, 156);
        let a5 = Scalar::spec_series_step(x2, a6, 110);
        let a4 = Scalar::spec_series_step(x2, a5, 72);
        let a3 = Scalar::spec_series_step(x2, a4, 42);
        let a2 = Scalar::spec_series_step(x2, a3, 20);
        let a1 = Scalar::spec_series_step(x2, a2, 6);
        self.spec_mul(a1)
    }

    /// Sine: the series of the folded angle, kept within `[-1, 1]`.
    pub open spec fn spec_sin(self) -> Scalar {
        self.spec_fold_angle().spec_sin_series().spec_max(Scalar::spec_one().spec_neg()).spec_min(
            Scalar::spec_one(),
        )
    }

    pub fn sin(self) -> (r: Scalar)
        ensures
            r == self.spec_sin(),
            -crate::scalar::ONE_RAW <= r.raw <= crate::scalar::ONE_RAW,
    {
        let x = self.fold_angle();
        let x2 = x.mul(x);
        let a7 = Scalar::series_step(x2, Scalar::one(), 210);
        let a6 = Scalar::series_step(x2, a7, 156);
        let a5 = Scalar::series_step(x2, a6, 110);
        let a4 = Scalar::series_step(x2, a5, 72);
        let a3 = Scalar::series_step(x2, a4, 42);
        let a2 = Scalar::series_step(x2, a3, 20);
        let a1 = Scalar::series_step(x2, a2, 6);
        x.mul(a1).max(Scalar::one().neg()).min(Scalar::one())
    }

    /// Cosine, as the sine of the angle advanced by a quarter turn.
    pub open spec fn spec_cos(self) -> Scalar {
        self.spec_add(Scalar { raw: HALF_PI_RAW }).spec_sin()
    }

    pub fn cos(self) -> (r: Scalar)
        ensures
            r == self.spec_cos(),
    {
        self.add(Scalar { raw: HALF_PI_RAW }).sin()
    }

    /// Tangent, as sine over cosine.
    pub open spec fn spec_tan(self) -> Scalar {
        self.spec_sin().spec_div(self.spec_cos())
    }

    pub fn tan(self) -> (r: Scalar)
        ensures
            r == self.spec_tan(),
    {
        self.sin().div(self.cos())
    }
}

} // verus!
