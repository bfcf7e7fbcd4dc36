use complexible::Angle;
use complexible::CartesianComplexNumber;
use complexible::ComplexNumber;
use complexible::PolarComplexNumber;

fn b(x: f64) -> u64 {
    x.to_bits()
}

fn v(x: u64) -> f64 {
    f64::from_bits(x)
}

fn close(a: f64, e: f64, tol: f64) -> bool {
    (a - e).abs() < tol
}

#[test]
fn cartesian_new_holds_parts() {
    let c = CartesianComplexNumber::new(b(1.0), b(2.0));
    assert_eq!(v(c.real_part), 1.0);
    assert_eq!(v(c.imaginary), 2.0);
}

#[test]
fn cartesian_to_polar_three_four_five() {
    let c = CartesianComplexNumber::new(b(3.0), b(4.0));
    let p = c.to_polar();
    assert_eq!(v(p.magnitude), 5.0);
    assert!(close(v(p.angle.d.value), 53.13010235415598, 1e-9));
}

#[test]
fn cartesian_to_polar_quadrants() {
    let quads = [
        (1.0, 1.0, 45.0),
        (-1.0, 1.0, 135.0),
        (-1.0, -1.0, -135.0),
        (1.0, -1.0, -45.0),
        (0.0, 1.0, 90.0),
        (0.0, -1.0, -90.0),
        (-1.0, 0.0, 180.0),
    ];
    for (re, im, deg) in quads {
        let p = CartesianComplexNumber::new(b(re), b(im)).to_polar();
        assert!(close(v(p.angle.d.value), deg, 1e-9));
    }
}

#[test]
fn polar_to_cartesian_unit_at_45_degrees() {
    let angle = Angle::from_degrees(b(45.0));
    let p = PolarComplexNumber::new(b(1.0), angle);
    let c = p.to_cartesian();
    assert!(close(v(c.real_part), 0.7071067811865476, 1e-15));
    assert!(close(v(c.imaginary), 0.7071067811865476, 1e-15));
}

#[test]
fn round_trip_cartesian_polar_cartesian() {
    // For finite inputs the two conversions invert each other within the
    // tolerance, across all four quadrants and on the axes.
    let samples = [
        (3.0, 4.0),
        (-2.5, 7.25),
        (0.0, -1.0),
        (123.456, -0.001),
        (-0.75, -0.2),
    ];
    for (re, im) in samples {
        let c = CartesianComplexNumber::new(b(re), b(im));
        let back = c.to_polar().to_cartesian();
        assert!(close(v(back.real_part), re, 1e-9));
        assert!(close(v(back.imaginary), im, 1e-9));
    }
}

#[test]
fn round_trip_complex_number_through_polar() {
    // A value rebuilt from its own polar accessors equals the starting value.
    let z = ComplexNumber::from_cartesian(b(2.0), b(3.0));
    let rebuilt = ComplexNumber::from_polar(z.abs(), z.angle_in_angle());
    assert!(rebuilt == z);
}

#[test]
fn accessors_expose_raw_values() {
    let angle = Angle::from_radians(b(0.927));
    let z = ComplexNumber::from_polar(b(5.0), angle);
    assert_eq!(v(z.abs()), 5.0);
    assert_eq!(v(z.angle_in_rads()), 0.927);
    let a = z.angle_in_angle();
    assert_eq!(a.r.value, b(0.927));
}

#[test]
fn from_real_has_zero_imaginary_part() {
    let z = ComplexNumber::from_real(b(7.5));
    assert_eq!(v(z.real_part()), 7.5);
    assert_eq!(v(z.imag()), 0.0);
    assert_eq!(v(z.abs()), 7.5);
}

#[test]
fn dual_construction_equivalence() {
    // The same point reached over the Cartesian and over the polar path.
    let z1 = ComplexNumber::from_cartesian(b(1.0), b(1.0));
    let z2 = ComplexNumber::from_polar(b(2.0f64.sqrt()), Angle::from_degrees(b(45.0)));
    assert!(z1 == z2);
}

#[test]
fn add_concrete_scenario() {
    let z1 = ComplexNumber::from_cartesian(b(2.0), b(3.0));
    let z2 = ComplexNumber::from_cartesian(b(1.0), b(2.0));
    let sum = z1.add(&z2);
    assert_eq!(v(sum.real_part()), 3.0);
    assert_eq!(v(sum.imag()), 5.0);
}

#[test]
fn additive_identity() {
    // z + 0 equals z, for values built over either path.
    let zero = ComplexNumber::from_real(b(0.0));
    let z1 = ComplexNumber::from_cartesian(b(2.0), b(3.0));
    assert!(z1.add(&zero) == z1);
    let z2 = ComplexNumber::from_polar(b(2.0), Angle::from_degrees(b(30.0)));
    assert!(z2.add(&zero) == z2);
}

#[test]
fn sub_is_componentwise() {
    let z1 = ComplexNumber::from_cartesian(b(3.0), b(4.0));
    let z2 = ComplexNumber::from_cartesian(b(1.0), b(2.0));
    let diff = z1.sub(&z2);
    assert_eq!(v(diff.real_part()), 2.0);
    assert_eq!(v(diff.imag()), 2.0);
}

#[test]
fn multiplicative_composition() {
    // Magnitudes multiply and angles add.
    let z1 = ComplexNumber::from_polar(b(2.0), Angle::from_degrees(b(30.0)));
    let z2 = ComplexNumber::from_polar(b(3.0), Angle::from_degrees(b(45.0)));
    let product = z1.mul(&z2);
    assert_eq!(v(product.abs()), 6.0);
    assert!(product == ComplexNumber::from_polar(b(6.0), Angle::from_degrees(b(75.0))));
}

#[test]
fn mul_n_scales_magnitude_and_keeps_angle() {
    let z = ComplexNumber::from_polar(b(2.0), Angle::from_degrees(b(30.0)));
    let scaled = z.mul_n(b(3.0));
    assert_eq!(v(scaled.abs()), 6.0);
    assert_eq!(v(scaled.angle_in_degs()), 30.0);
}

#[test]
fn div_divides_magnitudes_and_subtracts_angles() {
    let z1 = ComplexNumber::from_polar(b(2.0), Angle::from_degrees(b(30.0)));
    let z2 = ComplexNumber::from_polar(b(3.0), Angle::from_degrees(b(45.0)));
    let quotient = z1.div(&z2);
    assert_eq!(v(quotient.abs()), 2.0 / 3.0);
    assert!(close(v(quotient.angle_in_degs()), -15.0, 1e-9));
}

#[test]
fn div_by_zero_magnitude_gives_infinity() {
    // No error path: a zero divisor propagates infinity.
    let z1 = ComplexNumber::from_polar(b(2.0), Angle::from_degrees(b(30.0)));
    let zero = ComplexNumber::from_real(b(0.0));
    let quotient = z1.div(&zero);
    assert!(v(quotient.abs()).is_infinite());
}

#[test]
fn division_inverts_multiplication() {
    // z1 / z2 * z2 equals z1 within the tolerance, for nonzero z2.
    let z1 = ComplexNumber::from_cartesian(b(2.0), b(3.0));
    let z2 = ComplexNumber::from_cartesian(b(1.0), b(2.0));
    assert!(z1.div(&z2).mul(&z2) == z1);
    let z3 = ComplexNumber::from_polar(b(0.5), Angle::from_degrees(b(-120.0)));
    assert!(z1.div(&z3).mul(&z3) == z1);
}

#[test]
fn pow_concrete_scenario() {
    let z = ComplexNumber::from_cartesian(b(2.0), b(3.0));
    let cubed = z.pow(b(3.0));
    let expected =
        ComplexNumber::from_polar(b(46.872166581031), Angle::from_degrees(b(168.92979742206)));
    assert!(cubed == expected);
}

#[test]
fn pow_squares_magnitude() {
    let z = ComplexNumber::from_polar(b(2.0), Angle::from_degrees(b(30.0)));
    let squared = z.pow(b(2.0));
    assert!(close(v(squared.abs()), 4.0, 1e-12));
    assert!(close(v(squared.angle_in_degs()), 60.0, 1e-9));
}

#[test]
fn nth_root_inverts_pow_inside_principal_branch() {
    // The angle scaled by n and back stays inside (-180, 180]; the round
    // trip reproduces the value within the tolerance.
    let z = ComplexNumber::from_cartesian(b(2.0), b(3.0));
    assert!(z.pow(b(3.0)).nth_root(b(3.0)) == z);
}

#[test]
fn nth_root_halves_angle() {
    let z = ComplexNumber::from_polar(b(2.0), Angle::from_degrees(b(30.0)));
    let root = z.nth_root(b(2.0));
    assert!(close(v(root.abs()), 2.0f64.sqrt(), 1e-12));
    assert!(close(v(root.angle_in_degs()), 15.0, 1e-9));
}

#[test]
fn pow_root_round_trip_diverges_for_large_power() {
    // With a deliberately large exponent the magnitude overflows to
    // infinity on the way up and cannot come back down: the round trip
    // diverges instead of reproducing the value.
    let z = ComplexNumber::from_polar(b(2.0), Angle::from_degrees(b(30.0)));
    let back = z.pow(b(2000.0)).nth_root(b(2000.0));
    assert!(v(back.abs()).is_infinite());
    assert!(back != z);
}

#[test]
fn ln_takes_logarithm_of_magnitude_and_keeps_angle() {
    let z = ComplexNumber::from_polar(b(2.0), Angle::from_degrees(b(30.0)));
    let result = z.ln();
    assert!(close(v(result.abs()), 0.6931471805599453, 1e-15));
    assert_eq!(v(result.angle_in_degs()), 30.0);
    assert!(close(v(result.real_part()), 0.6002830669264718, 1e-12));
    assert!(close(v(result.imag()), 0.3465735902799726, 1e-12));
}

#[test]
fn log10_takes_logarithm_of_magnitude() {
    let z = ComplexNumber::from_polar(b(2.0), Angle::from_degrees(b(30.0)));
    let result = z.log10();
    assert!(close(v(result.abs()), 0.3010299956639812, 1e-15));
    assert!(close(v(result.real_part()), 0.26069962354612713, 1e-12));
    assert!(close(v(result.imag()), 0.15051499783199057, 1e-12));
}

#[test]
fn log_of_own_magnitude_base_is_one() {
    // Change of base: ln(2) / ln(2) is exactly one.
    let z = ComplexNumber::from_polar(b(2.0), Angle::from_degrees(b(30.0)));
    let result = z.log(b(2.0));
    assert_eq!(v(result.abs()), 1.0);
    assert!(close(v(result.real_part()), 0.8660254037844387, 1e-12));
    assert!(close(v(result.imag()), 0.49999999999999994, 1e-12));
}

#[test]
fn ln_of_zero_magnitude_gives_negative_infinity() {
    let zero = ComplexNumber::from_real(b(0.0));
    let result = zero.ln();
    assert_eq!(v(result.abs()), f64::NEG_INFINITY);
}

#[test]
fn equality_tolerates_differences_below_tolerance() {
    let z1 = ComplexNumber::from_real(b(1.0));
    let z2 = ComplexNumber::from_real(b(1.0000001));
    assert!(z1 == z2);
}

#[test]
fn equality_separates_differences_above_tolerance() {
    let z1 = ComplexNumber::from_real(b(1.0));
    let z2 = ComplexNumber::from_real(b(1.0001));
    assert!(z1 != z2);
}

#[test]
fn nan_is_not_equal_to_itself() {
    let z = ComplexNumber::from_real(b(f64::NAN));
    assert!(z != z);
}
