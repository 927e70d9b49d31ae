use sketchpad::scalar::Scalar;
use sketchpad::vec3::{vec3, Vec3};

#[test]
fn vec3_partial_eq() {
    let a = Vec3::new(Scalar::from_int(1), Scalar::from_int(2), Scalar::from_int(3));
    let b = Vec3::new(Scalar::from_int(1), Scalar::from_int(2), Scalar::from_int(3));
    assert!(a == b);
}

#[test]
fn vec3_vectors_have_a_w_value_value_of_0() {
    let a = Vec3::new(
        Scalar::from_units(4_300_000),
        Scalar::from_units(-4_200_000),
        Scalar::from_units(3_100_000),
    );
    assert_eq!(a.x().units, 4_300_000);
    assert_eq!(a.y().units, -4_200_000);
    assert_eq!(a.z().units, 3_100_000);
    assert_eq!(a.w().units, 0);
}

#[test]
fn vec3_constructs_a_vector() {
    let vector = vec3(Scalar::from_int(4), Scalar::from_int(-4), Scalar::from_int(3));
    assert_eq!(vector.x().units, 4_000_000);
    assert_eq!(vector.y().units, -4_000_000);
    assert_eq!(vector.z().units, 3_000_000);
    assert_eq!(vector.w().units, 0);
}

#[test]
// This represents moving backwards along a vector.
fn vec3_subtracting_two_vectors() {
    let v1 = vec3(Scalar::from_int(3), Scalar::from_int(2), Scalar::from_int(1));
    let v2 = vec3(Scalar::from_int(5), Scalar::from_int(6), Scalar::from_int(7));
    let actual = v1.sub(v2);
    let expected = vec3(Scalar::from_int(-2), Scalar::from_int(-4), Scalar::from_int(-6));
    assert_eq!(actual, expected);
}

#[test]
fn vec3_negating_a_vector() {
    let v = vec3(Scalar::from_int(1), Scalar::from_int(-2), Scalar::from_int(3));
    let actual = v.neg();
    let expected = vec3(Scalar::from_int(-1), Scalar::from_int(2), Scalar::from_int(-3));
    assert_eq!(actual, expected);
}

#[test]
fn vec3_multiplying_a_vector_by_a_scalar() {
    let a = vec3(Scalar::from_int(1), Scalar::from_int(-2), Scalar::from_int(3));
    let actual = a.mul(Scalar::from_units(3_500_000));
    let expected = vec3(
        Scalar::from_units(3_500_000),
        Scalar::from_units(-7_000_000),
        Scalar::from_units(10_500_000),
    );
    assert_eq!(actual, expected);
}

#[test]
fn vec3_multiplying_a_vector_by_a_fraction() {
    let a = vec3(Scalar::from_int(1), Scalar::from_int(-2), Scalar::from_int(3));
    let actual = a.mul(Scalar::from_units(500_000));
    let expected = vec3(
        Scalar::from_units(500_000),
        Scalar::from_int(-1),
        Scalar::from_units(1_500_000),
    );
    assert_eq!(actual, expected);
}

#[test]
fn vec3_dividing_a_vector_by_a_scalar() {
    let a = vec3(Scalar::from_int(1), Scalar::from_int(-2), Scalar::from_int(3));
    let actual = a.div(Scalar::from_int(2));
    let expected = vec3(
        Scalar::from_units(500_000),
        Scalar::from_int(-1),
        Scalar::from_units(1_500_000),
    );
    assert_eq!(actual, expected);
}

#[test]
fn vec3_magnitude_of_a_vector() {
    let v = vec3(Scalar::one(), Scalar::zero(), Scalar::zero());
    assert_eq!(v.length().units, 1_000_000);

    let v = vec3(Scalar::zero(), Scalar::one(), Scalar::zero());
    assert_eq!(v.length().units, 1_000_000);

    let v = vec3(Scalar::zero(), Scalar::zero(), Scalar::one());
    assert_eq!(v.length().units, 1_000_000);

    // sqrt(14), truncated at the millionth.
    let v = vec3(Scalar::from_int(1), Scalar::from_int(2), Scalar::from_int(3));
    assert_eq!(v.length().units, 3_741_657);

    let v = vec3(Scalar::from_int(-1), Scalar::from_int(-2), Scalar::from_int(-3));
    assert_eq!(v.length().units, 3_741_657);
}

#[test]
fn vec3_normalizing_vectors_returns_the_correct_value() {
    let v = vec3(Scalar::from_int(4), Scalar::zero(), Scalar::zero());
    let actual = v.normalize();
    let expected = vec3(Scalar::one(), Scalar::zero(), Scalar::zero());
    assert_eq!(actual, expected);

    let v = vec3(Scalar::from_int(1), Scalar::from_int(2), Scalar::from_int(3));
    let actual = v.normalize();
    let expected = vec3(
        Scalar::from_units(267_260),
        Scalar::from_units(534_520),
        Scalar::from_units(801_780),
    );
    assert_eq!(actual, expected);
}

#[test]
fn vec3_normalizing_vectors_returns_a_vector_with_magnitude_1() {
    let v = vec3(Scalar::from_int(1), Scalar::from_int(2), Scalar::from_int(3));
    let actual = v.normalize().length();
    let expected = Scalar::one();
    assert!(actual.almost_eq(expected));
}

#[test]
fn vec3_dot_product_of_two_vectors() {
    let a = vec3(Scalar::from_int(1), Scalar::from_int(2), Scalar::from_int(3));
    let b = vec3(Scalar::from_int(2), Scalar::from_int(3), Scalar::from_int(4));
    let actual = a.dot(b);
    let expected = Scalar::from_int(20);
    assert!(actual.almost_eq(expected));
}

#[test]
fn cross_product_of_two_vectors() {
    let v1 = vec3(Scalar::from_int(1), Scalar::from_int(2), Scalar::from_int(3));
    let v2 = vec3(Scalar::from_int(2), Scalar::from_int(3), Scalar::from_int(4));

    let actual = v1.cross(v2);
    let expected = vec3(Scalar::from_int(-1), Scalar::from_int(2), Scalar::from_int(-1));
    assert_eq!(actual, expected);

    let actual = v2.cross(v1);
    let expected = vec3(Scalar::from_int(1), Scalar::from_int(-2), Scalar::from_int(1));
    assert_eq!(actual, expected);
}

#[test]
// Swapping the inputs of the cross product negates the output.
fn cross_product_antisymmetry() {
    let a = vec3(Scalar::from_units(2_500_000), Scalar::from_units(-700_000), Scalar::from_int(4));
    let b = vec3(Scalar::from_int(-3), Scalar::from_units(1_250_000), Scalar::from_units(900_000));
    let forward = a.cross(b);
    let backward = b.cross(a).neg();
    assert_eq!(forward.x.units, backward.x.units);
    assert_eq!(forward.y.units, backward.y.units);
    assert_eq!(forward.z.units, backward.z.units);
}
