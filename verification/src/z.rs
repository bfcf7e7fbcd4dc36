//! A complex number in a single representation: Cartesian or polar.
//!
//! The two conversions here are the heart of the crate's consistency
//! discipline: a Cartesian pair becomes a magnitude (the Euclidean norm)
//! and a quadrant-correct angle, and a polar pair becomes the Cartesian
//! projections through cosine and sine. Each conversion's contract states
//! the exact formula.

use vstd::prelude::*;
use crate::angle::Angle;
use crate::scalar::add_bits;
use crate::scalar::atan2_bits;
use crate::scalar::cos_bits;
use crate::scalar::mul_bits;
use crate::scalar::sin_bits;
use crate::scalar::sqrt_bits;
use crate::scalar::b64_add;
use crate::scalar::b64_atan2;
use crate::scalar::b64_cos;
use crate::scalar::b64_mul;
use crate::scalar::b64_sin;
use crate::scalar::b64_sqrt;

verus! {

/// A complex number in Cartesian form; both fields are binary64 bit
/// patterns.
#[derive(Clone, Copy, Debug)]
pub struct CartesianComplexNumber {
    pub real_part: u64,
    pub imaginary: u64,
}

/// A complex number in polar form: a magnitude (a binary64 bit pattern)
/// and a direction.
#[derive(Clone, Copy, Debug)]
pub struct PolarComplexNumber {
    pub magnitude: u64,
    pub angle: Angle,
}

impl CartesianComplexNumber {
    /// A Cartesian complex number with the given real and imaginary parts.
    pub fn new(real_part: u64, imaginary: u64) -> (c: CartesianComplexNumber)
        ensures
            c.real_part == real_part,
            c.imaginary == imaginary,
    {
        CartesianComplexNumber { real_part, imaginary }
    }

    /// The polar form of this point: magnitude `sqrt(re^2 + im^2)`, angle
    /// `atan2(im, re)` in radians with the degree field derived from it.
    pub open spec fn spec_to_polar(self) -> PolarComplexNumber {
        PolarComplexNumber {
            magnitude: sqrt_bits(
                add_bits(mul_bits(self.real_part, self.real_part), mul_bits(self.imaginary, self.imaginary)),
            ),
            angle: Angle::spec_from_radians(atan2_bits(self.imaginary, self.real_part)),
        }
    }

    /// Converts to polar form. The magnitude is the Euclidean norm; the
    /// angle is the two-argument arctangent, correct in all four quadrants
    /// and on the zero-real-part boundary, in `(-pi, pi]` radians.
    pub fn to_polar(&self) -> (p: PolarComplexNumber)
        ensures
            p == self.spec_to_polar(),
            p.angle.consistent(),
    {
        let magnitude = b64_sqrt(
            b64_add(b64_mul(self.real_part, self.real_part), b64_mul(self.imaginary, self.imaginary)),
        );
        let angle = Angle::from_radians(b64_atan2(self.imaginary, self.real_part));
        PolarComplexNumber { magnitude, angle }
    }
}

impl PolarComplexNumber {
    /// A polar complex number with the given magnitude and angle.
    pub fn new(magnitude: u64, angle: Angle) -> (p: PolarComplexNumber)
        ensures
            p.magnitude == magnitude,
            p.angle == angle,
    {
        PolarComplexNumber { magnitude, angle }
    }

    /// The Cartesian form of this point: `re = m * cos(theta)`,
    /// `im = m * sin(theta)`, with `theta` the stored radian value.
    pub open spec fn spec_to_cartesian(self) -> CartesianComplexNumber {
        CartesianComplexNumber {
            real_part: mul_bits(self.magnitude, cos_bits(self.angle.r.value)),
            imaginary: mul_bits(self.magnitude, sin_bits(self.angle.r.value)),
        }
    }

    /// Converts to Cartesian form through cosine and sine of the stored
    /// radian value.
    pub fn to_cartesian(&self) -> (c: CartesianComplexNumber)
        ensures
            c == self.spec_to_cartesian(),
    {
        let r = self.angle.r.value;
        let real_part = b64_mul(self.magnitude, b64_cos(r));
        let imaginary = b64_mul(self.magnitude, b64_sin(r));
        CartesianComplexNumber { real_part, imaginary }
    }
}

} // verus!
