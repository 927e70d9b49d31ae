use sketchpad::point2::{pt2, Point2};
use sketchpad::point3::{pt3, Point3};
use sketchpad::scalar::Scalar;
use sketchpad::vec2::vec2;
use sketchpad::vec3::vec3;

#[test]
fn point2_points_have_a_w_value_of_1() {
    let a = pt2(Scalar::from_units(4_300_000), Scalar::from_units(-4_200_000));
    assert_eq!(a.x().units, 4_300_000);
    assert_eq!(a.y().units, -4_200_000);
}

#[test]
fn point2_pt3_constructs_a_point() {
    let point = pt2(Scalar::from_int(4), Scalar::from_int(-4));
    assert_eq!(point.x().units, 4_000_000);
    assert_eq!(point.y().units, -4_000_000);
}

#[test]
fn point2_and_vec2_adding_a_vector_and_a_point_yields_a_point() {
    let vector = vec2(Scalar::from_int(3), Scalar::from_int(-2));
    let point = pt2(Scalar::from_int(-2), Scalar::from_int(3));
    let expected = pt2(Scalar::from_int(1), Scalar::from_int(1));

    let actual = vector.add_point(point);
    assert_eq!(expected, actual);

    // Confirm that you can swap the order.
    let actual = point.add_vec(vector);
    assert_eq!(expected, actual);
}

#[test]
// This gives the vector from p2 to p1.
fn point2_and_vec2_subtracting_two_points_yields_a_vector() {
    let p1 = pt2(Scalar::from_int(3), Scalar::from_int(2));
    let p2 = pt2(Scalar::from_int(5), Scalar::from_int(6));
    let expected = vec2(Scalar::from_int(-2), Scalar::from_int(-4));
    let actual = p1.sub(p2);
    assert_eq!(expected, actual);
}

#[test]
// This represents moving backwards along a vector.
fn point2_and_vec2_subtracting_a_vector_from_a_point_yields_a_point() {
    let p = pt2(Scalar::from_int(3), Scalar::from_int(2));
    let v = vec2(Scalar::from_int(5), Scalar::from_int(6));
    let expected = pt2(Scalar::from_int(-2), Scalar::from_int(-4));
    let actual = p.sub_vec(v);
    assert_eq!(expected, actual);
}

#[test]
fn point2_add_sub_round_trip_is_exact() {
    let p = pt2(Scalar::from_units(1_234_567), Scalar::from_units(-9_876_543));
    let v = vec2(Scalar::from_units(55_555), Scalar::from_units(-777));
    let back = p.add_vec(v).sub_vec(v);
    assert_eq!(back.x.units, p.x.units);
    assert_eq!(back.y.units, p.y.units);
}

#[test]
fn point2_wh_scales_by_canvas_size() {
    let size = sketchpad::size2::size2(Scalar::from_int(100), Scalar::from_int(100));
    let p = pt2(Scalar::from_units(10_000), Scalar::from_units(500_000));
    let scaled = p.wh(&size);
    assert_eq!(scaled.x.units, 1_000_000);
    assert_eq!(scaled.y.units, 50_000_000);
}

#[test]
fn point2_flip_y_inverts_the_vertical_axis() {
    let height = Scalar::from_int(100);
    let p = pt2(Scalar::from_int(10), Scalar::from_int(30));
    let flipped = p.flip_y(height);
    assert_eq!(flipped.x.units, 10_000_000);
    assert_eq!(flipped.y.units, 70_000_000);
}

#[test]
fn point3_points_have_a_w_value_of_1() {
    let a = Point3::new(
        Scalar::from_units(4_300_000),
        Scalar::from_units(-4_200_000),
        Scalar::from_units(3_100_000),
    );
    assert_eq!(a.x().units, 4_300_000);
    assert_eq!(a.y().units, -4_200_000);
    assert_eq!(a.z().units, 3_100_000);
    assert_eq!(a.w().units, 1_000_000);
}

#[test]
fn point3_pt3_constructs_a_point() {
    let point = pt3(Scalar::from_int(4), Scalar::from_int(-4), Scalar::from_int(3));
    assert_eq!(point.x().units, 4_000_000);
    assert_eq!(point.y().units, -4_000_000);
    assert_eq!(point.z().units, 3_000_000);
    assert_eq!(point.w().units, 1_000_000);
}

#[test]
fn point3_and_vec3_adding_a_vector_and_a_point_yields_a_point() {
    let vector = vec3(Scalar::from_int(3), Scalar::from_int(-2), Scalar::from_int(5));
    let point = pt3(Scalar::from_int(-2), Scalar::from_int(3), Scalar::from_int(1));
    let expected = pt3(Scalar::from_int(1), Scalar::from_int(1), Scalar::from_int(6));

    let actual = vector.add_point(point);
    assert_eq!(expected, actual);

    // Confirm that you can swap the order.
    let actual = point.add_vec(vector);
    assert_eq!(expected, actual);
}

#[test]
// This gives the vector from p2 to p1.
fn point3_and_vec3_subtracting_two_points_yields_a_vector() {
    let p1 = pt3(Scalar::from_int(3), Scalar::from_int(2), Scalar::from_int(1));
    let p2 = pt3(Scalar::from_int(5), Scalar::from_int(6), Scalar::from_int(7));
    let expected = vec3(Scalar::from_int(-2), Scalar::from_int(-4), Scalar::from_int(-6));
    let actual = p1.sub(p2);
    assert_eq!(expected, actual);
}

#[test]
// This represents moving backwards along a vector.
fn point3_and_vec3_subtracting_a_vector_from_a_point_yields_a_point() {
    let p = pt3(Scalar::from_int(3), Scalar::from_int(2), Scalar::from_int(1));
    let v = vec3(Scalar::from_int(5), Scalar::from_int(6), Scalar::from_int(7));
    let expected = pt3(Scalar::from_int(-2), Scalar::from_int(-4), Scalar::from_int(-6));
    let actual = p.sub_vec(v);
    assert_eq!(expected, actual);
}

#[test]
fn point3_xy_projects_to_the_plane() {
    let p = pt3(Scalar::from_int(7), Scalar::from_int(-9), Scalar::from_int(2));
    let v = p.xy();
    assert_eq!(v.x.units, 7_000_000);
    assert_eq!(v.y.units, -9_000_000);
}
