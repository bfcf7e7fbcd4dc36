//! Angles kept simultaneously in degrees and in radians.
//!
//! An [`Angle`] stores both units; whichever constructor is used derives
//! the other unit at once, so the two fields always describe the same
//! angle (the predicate [`Angle::consistent`]).

use vstd::prelude::*;
use crate::scalar::mul_bits;
use crate::scalar::b64_mul;

verus! {

/// The bits of pi / 180, the radians in one degree.
pub const RAD_PER_DEG_BITS: u64 = 0x3F91_DF46_A252_9D39;

/// The bits of 180 / pi, the degrees in one radian.
pub const DEG_PER_RAD_BITS: u64 = 0x404C_A5DC_1A63_C1F8;

/// The degree value `d` converted to radians: `d * (pi / 180)`.
pub open spec fn deg_to_rad_bits(d: u64) -> u64 {
    mul_bits(d, RAD_PER_DEG_BITS)
}

/// The radian value `r` converted to degrees: `r * (180 / pi)`.
pub open spec fn rad_to_deg_bits(r: u64) -> u64 {
    mul_bits(r, DEG_PER_RAD_BITS)
}

/// An angle value in radians (`value` is a binary64 bit pattern).
#[derive(Clone, Copy, Debug)]
pub struct Radian {
    pub value: u64,
}

/// An angle value in degrees (`value` is a binary64 bit pattern).
#[derive(Clone, Copy, Debug)]
pub struct Degree {
    pub value: u64,
}

impl Radian {
    /// A `Radian` holding the given radian value.
    pub fn from(value: u64) -> (r: Radian)
        ensures
            r.value == value,
    {
        Radian { value }
    }

    /// This angle converted to degrees.
    pub fn to_degrees(&self) -> (d: Degree)
        ensures
            d.value == rad_to_deg_bits(self.value),
    {
        radianto_degrees(self.value)
    }
}

impl Degree {
    /// A `Degree` holding the given degree value.
    pub fn from(value: u64) -> (d: Degree)
        ensures
            d.value == value,
    {
        Degree { value }
    }

    /// This angle converted to radians.
    pub fn to_radians(&self) -> (r: Radian)
        ensures
            r.value == deg_to_rad_bits(self.value),
    {
        degreesto_radians(self.value)
    }
}

/// Converts a degree value to radians.
pub fn degreesto_radians(d: u64) -> (r: Radian)
    ensures
        r.value == deg_to_rad_bits(d),
{
    let value = b64_mul(d, RAD_PER_DEG_BITS);
    Radian { value }
}

/// Converts a radian value to degrees.
pub fn radianto_degrees(r: u64) -> (d: Degree)
    ensures
        d.value == rad_to_deg_bits(r),
{
    let value = b64_mul(r, DEG_PER_RAD_BITS);
    Degree { value }
}

/// An angle, stored in both degrees and radians.
///
/// The only ways to build one are [`Angle::from_degrees`] and
/// [`Angle::from_radians`]; each derives the second unit from the one it
/// was given, so a constructed `Angle` is always [`Angle::consistent`].
#[derive(Clone, Copy, Debug)]
pub struct Angle {
    pub d: Degree,
    pub r: Radian,
}

impl Angle {
    /// The two stored units describe the same angle: one of them is the
    /// crate's unit conversion applied to the other.
    pub open spec fn consistent(self) -> bool {
        ||| self.r.value == deg_to_rad_bits(self.d.value)
        ||| self.d.value == rad_to_deg_bits(self.r.value)
    }

    /// The angle an [`Angle::from_degrees`] call builds: degrees as given,
    /// radians derived.
    pub open spec fn spec_from_degrees(d: u64) -> Angle {
        Angle { d: Degree { value: d }, r: Radian { value: deg_to_rad_bits(d) } }
    }

    /// The angle an [`Angle::from_radians`] call builds: radians as given,
    /// degrees derived.
    pub open spec fn spec_from_radians(r: u64) -> Angle {
        Angle { d: Degree { value: rad_to_deg_bits(r) }, r: Radian { value: r } }
    }

    /// An angle of `d` degrees; the radian field is derived immediately.
    pub fn from_degrees(d: u64) -> (a: Angle)
        ensures
            a == Angle::spec_from_degrees(d),
            a.consistent(),
    {
        let d = Degree::from(d);
        let r = d.to_radians();
        Angle { d, r }
    }

    /// An angle of `r` radians; the degree field is derived immediately.
    pub fn from_radians(r: u64) -> (a: Angle)
        ensures
            a == Angle::spec_from_radians(r),
            a.consistent(),
    {
        let r = Radian::from(r);
        let d = r.to_degrees();
        Angle { d, r }
    }
}

} // verus!
