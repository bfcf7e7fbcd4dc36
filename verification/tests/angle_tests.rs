use complexible::Angle;
use complexible::Degree;
use complexible::Radian;

fn b(x: f64) -> u64 {
    x.to_bits()
}

fn v(x: u64) -> f64 {
    f64::from_bits(x)
}

#[test]
fn radian_from_holds_value() {
    let radian = Radian::from(b(std::f64::consts::PI));
    assert_eq!(v(radian.value), std::f64::consts::PI);
}

#[test]
fn degree_from_holds_value() {
    let degree = Degree::from(b(180.0));
    assert_eq!(v(degree.value), 180.0);
}

#[test]
fn radian_to_degrees_converts() {
    let radian = Radian::from(b(std::f64::consts::PI));
    let degree = radian.to_degrees();
    assert_eq!(v(degree.value), 180.0);
}

#[test]
fn degree_to_radians_converts() {
    let degree = Degree::from(b(180.0));
    let radian = degree.to_radians();
    assert_eq!(v(radian.value), std::f64::consts::PI);
}

#[test]
fn free_conversions_match_methods() {
    let r = complexible::angle::degreesto_radians(b(90.0));
    assert_eq!(v(r.value), 90.0f64 * (std::f64::consts::PI / 180.0));
    let d = complexible::angle::radianto_degrees(b(std::f64::consts::PI / 2.0));
    assert_eq!(v(d.value), (std::f64::consts::PI / 2.0) * (180.0 / std::f64::consts::PI));
}

#[test]
fn angle_from_degrees_derives_radians() {
    let a = Angle::from_degrees(b(45.0));
    assert_eq!(v(a.d.value), 45.0);
    assert_eq!(v(a.r.value), std::f64::consts::FRAC_PI_4);
}

#[test]
fn angle_from_radians_derives_degrees() {
    let a = Angle::from_radians(b(std::f64::consts::FRAC_PI_4));
    assert_eq!(v(a.r.value), std::f64::consts::FRAC_PI_4);
    assert_eq!(v(a.d.value), 45.0);
}

#[test]
fn angle_duality_between_units() {
    // An angle stated as pi/4 radians and one stated as 45 degrees agree
    // in both stored units, exactly.
    let from_r = Angle::from_radians(b(std::f64::consts::FRAC_PI_4));
    let from_d = Angle::from_degrees(b(45.0));
    assert_eq!(from_r.d.value, from_d.d.value);
    assert_eq!(from_r.r.value, from_d.r.value);
}

#[test]
fn angle_nan_propagates() {
    let a = Angle::from_degrees(b(f64::NAN));
    assert!(v(a.d.value).is_nan());
    assert!(v(a.r.value).is_nan());
}

#[test]
fn angle_infinity_propagates() {
    let a = Angle::from_degrees(b(f64::INFINITY));
    assert_eq!(v(a.r.value), f64::INFINITY);
}
