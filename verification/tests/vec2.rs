use sketchpad::scalar::Scalar;
use sketchpad::vec2::{vec2, Vec2};

#[test]
fn vec2_partial_eq() {
    let a = Vec2::new(Scalar::from_int(1), Scalar::from_int(2));
    let b = Vec2::new(Scalar::from_int(1), Scalar::from_int(2));
    assert!(a == b);
}

#[test]
fn vec2_vectors_have_a_w_value_value_of_0() {
    let a = Vec2::new(Scalar::from_units(4_300_000), Scalar::from_units(-4_200_000));
    assert_eq!(a.x().units, 4_300_000);
    assert_eq!(a.y().units, -4_200_000);
}

#[test]
fn vec2_constructs_a_vector() {
    let vector = vec2(Scalar::from_int(4), Scalar::from_int(-4));
    assert_eq!(vector.x().units, 4_000_000);
    assert_eq!(vector.y().units, -4_000_000);
}

#[test]
// This represents moving backwards along a vector.
fn vec2_subtracting_two_vectors() {
    let v1 = vec2(Scalar::from_int(3), Scalar::from_int(2));
    let v2 = vec2(Scalar::from_int(5), Scalar::from_int(6));
    let actual = v1.sub(v2);
    let expected = vec2(Scalar::from_int(-2), Scalar::from_int(-4));
    assert_eq!(actual, expected);
}

#[test]
fn vec2_negating_a_vector() {
    let v = vec2(Scalar::from_int(1), Scalar::from_int(-2));
    let actual = v.neg();
    let expected = vec2(Scalar::from_int(-1), Scalar::from_int(2));
    assert_eq!(actual, expected);
}

#[test]
fn vec2_multiplying_a_vector_by_a_scalar() {
    let a = vec2(Scalar::from_int(1), Scalar::from_int(-2));
    let actual = a.mul(Scalar::from_units(3_500_000));
    let expected = vec2(Scalar::from_units(3_500_000), Scalar::from_units(-7_000_000));
    assert_eq!(actual, expected);
}

#[test]
fn vec2_multiplying_a_vector_by_a_fraction() {
    let a = vec2(Scalar::from_int(1), Scalar::from_int(-2));
    let actual = a.mul(Scalar::from_units(500_000));
    let expected = vec2(Scalar::from_units(500_000), Scalar::from_int(-1));
    assert_eq!(actual, expected);
}

#[test]
fn vec2_dividing_a_vector_by_a_scalar() {
    let a = vec2(Scalar::from_int(1), Scalar::from_int(-2));
    let actual = a.div(Scalar::from_int(2));
    let expected = vec2(Scalar::from_units(500_000), Scalar::from_int(-1));
    assert_eq!(actual, expected);
}

#[test]
fn vec2_magnitude_of_a_vector() {
    let v = vec2(Scalar::one(), Scalar::zero());
    assert_eq!(v.length().units, 1_000_000);

    let v = vec2(Scalar::zero(), Scalar::one());
    assert_eq!(v.length().units, 1_000_000);

    let v = vec2(Scalar::zero(), Scalar::zero());
    assert_eq!(v.length().units, 0);

    // sqrt(5), truncated at the millionth.
    let v = vec2(Scalar::from_int(1), Scalar::from_int(2));
    assert_eq!(v.length().units, 2_236_067);

    let v = vec2(Scalar::from_int(-1), Scalar::from_int(-2));
    assert_eq!(v.length().units, 2_236_067);
}

#[test]
fn vec2_normalizing_vectors_returns_the_correct_value() {
    let v = vec2(Scalar::from_int(4), Scalar::zero());
    let actual = v.normalize();
    let expected = vec2(Scalar::one(), Scalar::zero());
    assert_eq!(actual, expected);

    let v = vec2(Scalar::from_int(1), Scalar::from_int(2));
    let actual = v.normalize();
    let expected = vec2(Scalar::from_units(447_214), Scalar::from_units(894_427));
    assert_eq!(actual, expected);
}

#[test]
fn vec2_normalizing_vectors_returns_a_vector_with_magnitude_1() {
    let v = vec2(Scalar::from_int(1), Scalar::from_int(2));
    let actual = v.normalize().length();
    let expected = Scalar::one();
    assert!(actual.almost_eq(expected));
}

#[test]
fn vec2_dot_product_of_two_vectors() {
    let a = vec2(Scalar::from_int(1), Scalar::from_int(2));
    let b = vec2(Scalar::from_int(2), Scalar::from_int(3));
    let actual = a.dot(b);
    let expected = Scalar::from_int(8);
    assert!(actual.almost_eq(expected));
}
