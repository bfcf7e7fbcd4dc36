//! The public complex-number value type.
//!
//! A [`ComplexNumber`] owns one Cartesian and one polar representation of
//! the same point. The only paths to an instance are the three factories,
//! and each derives the second representation from the one it is given, so
//! the central invariant [`ComplexNumber::wf`] — both fields describe the
//! same point — holds of every value the crate ever hands out. Every
//! operation picks the representation in which its formula is simplest
//! (additive work in Cartesian form, multiplicative and exponential work
//! in polar form) and rebuilds a fully consistent value through a factory.
//!
//! Equality is approximate by design: each of the five derived scalars is
//! rounded to [`TOLERANCE_DECIMAL_PLACES`] decimal places before the
//! comparison, so values reached over different construction paths compare
//! equal although their last bits differ.

use vstd::prelude::*;
use crate::angle::Angle;
use crate::scalar::add_bits;
use crate::scalar::div_bits;
use crate::scalar::eq_bits;
use crate::scalar::ln_bits;
use crate::scalar::log10_bits;
use crate::scalar::mul_bits;
use crate::scalar::powf_bits;
use crate::scalar::round_bits;
use crate::scalar::sub_bits;
use crate::scalar::b64_add;
use crate::scalar::b64_div;
use crate::scalar::b64_eq;
use crate::scalar::b64_ln;
use crate::scalar::b64_log10;
use crate::scalar::b64_mul;
use crate::scalar::b64_powf;
use crate::scalar::b64_round;
use crate::scalar::b64_sub;
use crate::z::CartesianComplexNumber;
use crate::z::PolarComplexNumber;

verus! {

/// The bits of binary64 zero.
pub const ZERO_BITS: u64 = 0;

/// The bits of binary64 one.
pub const ONE_BITS: u64 = 0x3FF0_0000_0000_0000;

/// How many decimal places the equality comparator keeps. Equality rounds
/// every compared scalar to this many places; nothing else in the crate
/// rounds, so accessors hand out raw values and all display rounding is
/// left to callers.
pub const TOLERANCE_DECIMAL_PLACES: u32 = 5;

/// The bits of 10 to the [`TOLERANCE_DECIMAL_PLACES`]: the scale the
/// equality comparator rounds at.
pub const TOLERANCE_SCALE_BITS: u64 = 0x40F8_6A00_0000_0000;

/// `n` rounded to the tolerance's decimal places:
/// `round(n * scale) / scale`.
pub open spec fn round_tol_bits(n: u64) -> u64 {
    div_bits(round_bits(mul_bits(n, TOLERANCE_SCALE_BITS)), TOLERANCE_SCALE_BITS)
}

/// Rounds a scalar to the tolerance used by the equality comparator.
fn round_to_tolerance(n: u64) -> (r: u64)
    ensures
        r == round_tol_bits(n),
{
    b64_div(b64_round(b64_mul(n, TOLERANCE_SCALE_BITS)), TOLERANCE_SCALE_BITS)
}

/// A complex number held in both Cartesian and polar form at once. The
/// fields are private: the three factories are the only paths to a value,
/// which is how the crate keeps the two representations synchronized.
#[derive(Debug)]
pub struct ComplexNumber {
    cartesian: CartesianComplexNumber,
    polar: PolarComplexNumber,
}

impl ComplexNumber {
    /// The stored Cartesian representation.
    pub closed spec fn cartesian_part(self) -> CartesianComplexNumber {
        self.cartesian
    }

    /// The stored polar representation.
    pub closed spec fn polar_part(self) -> PolarComplexNumber {
        self.polar
    }

    /// The central invariant: the two stored representations describe the
    /// same point — one of them is the crate's conversion applied to the
    /// other. Every factory and every operation establishes it.
    pub open spec fn wf(self) -> bool {
        ||| self.polar_part() == self.cartesian_part().spec_to_polar()
        ||| self.cartesian_part() == self.polar_part().spec_to_cartesian()
    }

    /// `self` is exactly the value the Cartesian factory builds from the
    /// pair: that pair stored, and the polar form derived from it.
    pub open spec fn is_from_cartesian(self, real_part: u64, imaginary: u64) -> bool {
        &&& self.cartesian_part() == (CartesianComplexNumber { real_part, imaginary })
        &&& self.polar_part() == self.cartesian_part().spec_to_polar()
    }

    /// `self` is exactly the value the polar factory builds from the pair:
    /// that pair stored, and the Cartesian form derived from it.
    pub open spec fn is_from_polar(self, magnitude: u64, angle: Angle) -> bool {
        &&& self.polar_part() == (PolarComplexNumber { magnitude, angle })
        &&& self.cartesian_part() == self.polar_part().spec_to_cartesian()
    }

    /// A complex number from its Cartesian coordinates; the polar form is
    /// derived at once.
    pub fn from_cartesian(real_part: u64, imaginary: u64) -> (z: ComplexNumber)
        ensures
            z.is_from_cartesian(real_part, imaginary),
            z.wf(),
            z.polar_part().angle.consistent(),
    {
        let cartesian = CartesianComplexNumber::new(real_part, imaginary);
        let polar = cartesian.to_polar();
        ComplexNumber { cartesian, polar }
    }

    /// A complex number from its polar coordinates; the Cartesian form is
    /// derived at once.
    pub fn from_polar(magnitude: u64, angle: Angle) -> (z: ComplexNumber)
        ensures
            z.is_from_polar(magnitude, angle),
            z.wf(),
            angle.consistent() ==> z.polar_part().angle.consistent(),
    {
        let polar = PolarComplexNumber::new(magnitude, angle);
        let cartesian = polar.to_cartesian();
        ComplexNumber { cartesian, polar }
    }

    /// A complex number from a real scalar: the imaginary part is exactly
    /// zero.
    pub fn from_real(real_part: u64) -> (z: ComplexNumber)
        ensures
            z.is_from_cartesian(real_part, ZERO_BITS),
            z.wf(),
            z.polar_part().angle.consistent(),
    {
        ComplexNumber::from_cartesian(real_part, ZERO_BITS)
    }

    /// The magnitude (absolute value), raw and unrounded.
    pub fn abs(&self) -> (r: u64)
        ensures
            r == self.polar_part().magnitude,
    {
        self.polar.magnitude
    }

    /// The angle in radians, raw and unrounded.
    pub fn angle_in_rads(&self) -> (r: u64)
        ensures
            r == self.polar_part().angle.r.value,
    {
        self.polar.angle.r.value
    }

    /// The angle in degrees, raw and unrounded.
    pub fn angle_in_degs(&self) -> (r: u64)
        ensures
            r == self.polar_part().angle.d.value,
    {
        self.polar.angle.d.value
    }

    /// A copy of the internal [`Angle`].
    pub fn angle_in_angle(&self) -> (a: Angle)
        ensures
            a == self.polar_part().angle,
    {
        self.polar.angle
    }

    /// The real part, raw and unrounded.
    pub fn real_part(&self) -> (r: u64)
        ensures
            r == self.cartesian_part().real_part,
    {
        self.cartesian.real_part
    }

    /// The imaginary part, raw and unrounded.
    pub fn imag(&self) -> (r: u64)
        ensures
            r == self.cartesian_part().imaginary,
    {
        self.cartesian.imaginary
    }

    /// Adds `z2`, working in Cartesian form — both parts add
    /// componentwise — and rebuilding the polar form through the factory.
    pub fn add(&self, z2: &ComplexNumber) -> (z: ComplexNumber)
        ensures
            z.is_from_cartesian(
                add_bits(self.cartesian_part().real_part, z2.cartesian_part().real_part),
                add_bits(self.cartesian_part().imaginary, z2.cartesian_part().imaginary),
            ),
            z.wf(),
            z.polar_part().angle.consistent(),
    {
        let real_part = b64_add(self.real_part(), z2.real_part());
        let imaginary = b64_add(self.imag(), z2.imag());
        ComplexNumber::from_cartesian(real_part, imaginary)
    }

    /// Subtracts `z2`, working in Cartesian form: both parts subtract
    /// componentwise.
    pub fn sub(&self, z2: &ComplexNumber) -> (z: ComplexNumber)
        ensures
            z.is_from_cartesian(
                sub_bits(self.cartesian_part().real_part, z2.cartesian_part().real_part),
                sub_bits(self.cartesian_part().imaginary, z2.cartesian_part().imaginary),
            ),
            z.wf(),
            z.polar_part().angle.consistent(),
    {
        let real_part = b64_sub(self.real_part(), z2.real_part());
        let imaginary = b64_sub(self.imag(), z2.imag());
        ComplexNumber::from_cartesian(real_part, imaginary)
    }

    /// Multiplies by `z2`, working in polar form: magnitudes multiply and
    /// radian angles add; the Cartesian form is rebuilt through the
    /// factory.
    pub fn mul(&self, z2: &ComplexNumber) -> (z: ComplexNumber)
        ensures
            z.is_from_polar(
                mul_bits(self.polar_part().magnitude, z2.polar_part().magnitude),
                Angle::spec_from_radians(
                    add_bits(self.polar_part().angle.r.value, z2.polar_part().angle.r.value),
                ),
            ),
            z.wf(),
            z.polar_part().angle.consistent(),
    {
        let magnitude = b64_mul(self.abs(), z2.abs());
        let angle = Angle::from_radians(b64_add(self.angle_in_rads(), z2.angle_in_rads()));
        ComplexNumber::from_polar(magnitude, angle)
    }

    /// Multiplies by the real scalar `n`, working in polar form: the
    /// magnitude scales and the angle is kept.
    pub fn mul_n(&self, n: u64) -> (z: ComplexNumber)
        ensures
            z.is_from_polar(mul_bits(self.polar_part().magnitude, n), self.polar_part().angle),
            z.wf(),
    {
        let magnitude = b64_mul(self.abs(), n);
        ComplexNumber::from_polar(magnitude, self.angle_in_angle())
    }

    /// Divides by `z2`, working in polar form: magnitudes divide and
    /// radian angles subtract. A zero divisor propagates an infinity or a
    /// NaN through the binary64 operations; there is no error path.
    pub fn div(&self, z2: &ComplexNumber) -> (z: ComplexNumber)
        ensures
            z.is_from_polar(
                div_bits(self.polar_part().magnitude, z2.polar_part().magnitude),
                Angle::spec_from_radians(
                    sub_bits(self.polar_part().angle.r.value, z2.polar_part().angle.r.value),
                ),
            ),
            z.wf(),
            z.polar_part().angle.consistent(),
    {
        let magnitude = b64_div(self.abs(), z2.abs());
        let angle = Angle::from_radians(b64_sub(self.angle_in_rads(), z2.angle_in_rads()));
        ComplexNumber::from_polar(magnitude, angle)
    }

    /// Raises to the real power `n`, working in polar form: the magnitude
    /// is raised to `n` and the radian angle scales by `n`.
    pub fn pow(&self, n: u64) -> (z: ComplexNumber)
        ensures
            z.is_from_polar(
                powf_bits(self.polar_part().magnitude, n),
                Angle::spec_from_radians(mul_bits(self.polar_part().angle.r.value, n)),
            ),
            z.wf(),
            z.polar_part().angle.consistent(),
    {
        let magnitude = b64_powf(self.abs(), n);
        let angle = Angle::from_radians(b64_mul(self.angle_in_rads(), n));
        ComplexNumber::from_polar(magnitude, angle)
    }

    /// The principal `n`th root, working in polar form: the magnitude is
    /// raised to `1 / n` and the radian angle divides by `n`. Only this
    /// one of the `n` roots is computed; that is a scope boundary of the
    /// library, not an oversight.
    pub fn nth_root(&self, n: u64) -> (z: ComplexNumber)
        ensures
            z.is_from_polar(
                powf_bits(self.polar_part().magnitude, div_bits(ONE_BITS, n)),
                Angle::spec_from_radians(div_bits(self.polar_part().angle.r.value, n)),
            ),
            z.wf(),
            z.polar_part().angle.consistent(),
    {
        let magnitude = b64_powf(self.abs(), b64_div(ONE_BITS, n));
        let angle = Angle::from_radians(b64_div(self.angle_in_rads(), n));
        ComplexNumber::from_polar(magnitude, angle)
    }

    /// The natural logarithm as this library defines it: a polar-built
    /// value whose magnitude is `ln(m)` and whose angle is kept, then
    /// pushed through the polar-to-Cartesian reconstruction. (The
    /// conventional complex logarithm would instead be the Cartesian value
    /// `ln(m) + i*theta`; this crate keeps the magnitude-only transform.)
    pub fn ln(&self) -> (z: ComplexNumber)
        ensures
            z.is_from_polar(ln_bits(self.polar_part().magnitude), self.polar_part().angle),
            z.wf(),
    {
        let magnitude = b64_ln(self.abs());
        ComplexNumber::from_polar(magnitude, self.angle_in_angle())
    }

    /// The base-10 logarithm of the magnitude, with the angle kept; same
    /// convention as [`ComplexNumber::ln`].
    pub fn log10(&self) -> (z: ComplexNumber)
        ensures
            z.is_from_polar(log10_bits(self.polar_part().magnitude), self.polar_part().angle),
            z.wf(),
    {
        let magnitude = b64_log10(self.abs());
        ComplexNumber::from_polar(magnitude, self.angle_in_angle())
    }

    /// The logarithm with respect to the arbitrary base `arb`, by change
    /// of base — `ln(m) / ln(arb)` — with the angle kept.
    pub fn log(&self, arb: u64) -> (z: ComplexNumber)
        ensures
            z.is_from_polar(
                div_bits(ln_bits(self.polar_part().magnitude), ln_bits(arb)),
                self.polar_part().angle,
            ),
            z.wf(),
    {
        let magnitude = b64_div(b64_ln(self.abs()), b64_ln(arb));
        ComplexNumber::from_polar(magnitude, self.angle_in_angle())
    }

    /// Tolerance-rounded structural equality: the five derived scalars —
    /// magnitude, angle in degrees, angle in radians, imaginary part, real
    /// part — are each rounded to the tolerance and compared as binary64
    /// values.
    pub open spec fn approx_eq(self, other: ComplexNumber) -> bool {
        &&& eq_bits(
            round_tol_bits(self.polar_part().magnitude),
            round_tol_bits(other.polar_part().magnitude),
        )
        &&& eq_bits(
            round_tol_bits(self.polar_part().angle.d.value),
            round_tol_bits(other.polar_part().angle.d.value),
        )
        &&& eq_bits(
            round_tol_bits(self.polar_part().angle.r.value),
            round_tol_bits(other.polar_part().angle.r.value),
        )
        &&& eq_bits(
            round_tol_bits(self.cartesian_part().imaginary),
            round_tol_bits(other.cartesian_part().imaginary),
        )
        &&& eq_bits(
            round_tol_bits(self.cartesian_part().real_part),
            round_tol_bits(other.cartesian_part().real_part),
        )
    }
}

impl PartialEq for ComplexNumber {
    /// Approximate equality across both representations; see
    /// [`ComplexNumber::approx_eq`].
    fn eq(&self, other: &Self) -> (r: bool) {
        let c1 = b64_eq(round_to_tolerance(self.abs()), round_to_tolerance(other.abs()));
        let c2 = b64_eq(
            round_to_tolerance(self.angle_in_degs()),
            round_to_tolerance(other.angle_in_degs()),
        );
        let c3 = b64_eq(
            round_to_tolerance(self.angle_in_rads()),
            round_to_tolerance(other.angle_in_rads()),
        );
        let c4 = b64_eq(round_to_tolerance(self.imag()), round_to_tolerance(other.imag()));
        let c5 = b64_eq(
            round_to_tolerance(self.real_part()),
            round_to_tolerance(other.real_part()),
        );
        c1 && c2 && c3 && c4 && c5
    }
}

impl vstd::std_specs::cmp::PartialEqSpecImpl for ComplexNumber {
    open spec fn obeys_eq_spec() -> bool {
        true
    }

    open spec fn eq_spec(&self, other: &ComplexNumber) -> bool {
        self.approx_eq(*other)
    }
}

/// Multiplicative composition on polar-built values: the product of a
/// value built from `(m1, a1)` and one built from `(m2, a2)` is itself a
/// polar-built value, of the binary64 product of the magnitudes and the
/// angle built from the sum of the radian values. (That the resulting
/// degree value is the sum of the degree values is a fact of binary64
/// arithmetic outside the reach of the uninterpreted operations; the
/// concrete case is exercised by a test.)
pub proof fn lemma_mul_composes(
    z1: ComplexNumber,
    m1: u64,
    a1: Angle,
    z2: ComplexNumber,
    m2: u64,
    a2: Angle,
    z: ComplexNumber,
)
    requires
        z1.is_from_polar(m1, a1),
        z2.is_from_polar(m2, a2),
        z.is_from_polar(
            mul_bits(z1.polar_part().magnitude, z2.polar_part().magnitude),
            Angle::spec_from_radians(
                add_bits(z1.polar_part().angle.r.value, z2.polar_part().angle.r.value),
            ),
        ),
    ensures
        z.is_from_polar(
            mul_bits(m1, m2),
            Angle::spec_from_radians(add_bits(a1.r.value, a2.r.value)),
        ),
{
}

} // verus!
