use annotation_tools::math::{number_eq, Vec2D, NEGATIVE_ZERO, POSITIVE_INFINITY, POSITIVE_ZERO};

fn point(x: f64, y: f64) -> Vec2D {
    Vec2D::from_bits(x.to_bits(), y.to_bits())
}

#[test]
fn constants_are_the_bit_patterns_they_name() {
    assert_eq!(POSITIVE_ZERO, 0.0f64.to_bits());
    assert_eq!(NEGATIVE_ZERO, (-0.0f64).to_bits());
    assert_eq!(POSITIVE_INFINITY, f64::INFINITY.to_bits());
}

#[test]
fn zero_has_two_positive_zero_coordinates() {
    let zero = Vec2D::zero();
    assert_eq!(f64::from_bits(zero.x_bits), 0.0);
    assert_eq!(f64::from_bits(zero.y_bits), 0.0);
    assert_eq!(zero.x_bits, 0);
    assert_eq!(zero.y_bits, 0);
}

#[test]
fn from_bits_keeps_the_coordinates() {
    let v = Vec2D::from_bits(1.5f64.to_bits(), (-2.25f64).to_bits());
    assert_eq!(f64::from_bits(v.x_bits), 1.5);
    assert_eq!(f64::from_bits(v.y_bits), -2.25);
}

#[test]
fn number_equality_is_that_of_the_numbers() {
    let samples = [
        0.0,
        -0.0,
        1.0,
        -1.0,
        0.1,
        10.0,
        3.0,
        f64::MIN_POSITIVE,
        f64::MAX,
        f64::MIN,
        f64::EPSILON,
        f64::INFINITY,
        f64::NEG_INFINITY,
        f64::NAN,
        -f64::NAN,
        f64::from_bits(0x7ff0_0000_0000_0001),
        f64::from_bits(0xfff8_0000_0000_0000),
        f64::from_bits(1),
        f64::from_bits(0x8000_0000_0000_0001),
    ];
    for a in samples {
        for b in samples {
            assert_eq!(number_eq(a.to_bits(), b.to_bits()), a == b, "{} and {}", a, b);
        }
    }
}

#[test]
fn vectors_are_equal_when_both_coordinates_are() {
    assert!(point(1.0, 2.0) == point(1.0, 2.0));
    assert!(point(1.0, 2.0) != point(1.0, 2.5));
    assert!(point(1.0, 2.0) != point(1.5, 2.0));
    assert!(point(1.0, 2.0) != point(2.0, 1.0));
}

#[test]
fn zeros_of_either_sign_equal_the_zero_vector() {
    assert!(point(0.0, 0.0) == Vec2D::zero());
    assert!(point(-0.0, 0.0) == Vec2D::zero());
    assert!(point(0.0, -0.0) == Vec2D::zero());
    assert!(point(-0.0, -0.0) == Vec2D::zero());
    assert!(point(f64::MIN_POSITIVE, 0.0) != Vec2D::zero());
    assert!(point(0.0, f64::from_bits(1)) != Vec2D::zero());
}

#[test]
fn a_vector_with_a_nan_equals_nothing() {
    let v = point(f64::NAN, 1.0);
    assert!(v != v);
    assert!(v != Vec2D::zero());
    assert!(point(1.0, f64::NAN) != point(1.0, f64::NAN));
}
