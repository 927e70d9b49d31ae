//! Three-dimensional points: positions with an implicit affine weight
//! of one, and the algebra that keeps that weight invariant.

use vstd::prelude::*;

use crate::scalar::{close_units, Scalar, SCALE};
use crate::vec2::Vec2;
use crate::vec3::Vec3;

verus! {

/// A position in space; its affine weight is one by construction.
#[derive(Clone, Copy, Debug)]
pub struct Point3 {
    pub x: Scalar,
    pub y: Scalar,
    pub z: Scalar,
}

/// The point reached by following `v` from `p`.
pub open spec fn pt3_add_vec(p: Point3, v: Vec3) -> Point3 {
    Point3 {
        x: Scalar { units: (p.x.units + v.x.units) as i64 },
        y: Scalar { units: (p.y.units + v.y.units) as i64 },
        z: Scalar { units: (p.z.units + v.z.units) as i64 },
    }
}

/// The point reached by moving backwards along `v` from `p`.
pub open spec fn pt3_sub_vec(p: Point3, v: Vec3) -> Point3 {
    Point3 {
        x: Scalar { units: (p.x.units - v.x.units) as i64 },
        y: Scalar { units: (p.y.units - v.y.units) as i64 },
        z: Scalar { units: (p.z.units - v.z.units) as i64 },
    }
}

/// The displacement from `q` to `p`.
pub open spec fn pt3_sub_point(p: Point3, q: Point3) -> Vec3 {
    Vec3 {
        x: Scalar { units: (p.x.units - q.x.units) as i64 },
        y: Scalar { units: (p.y.units - q.y.units) as i64 },
        z: Scalar { units: (p.z.units - q.z.units) as i64 },
    }
}

impl Point3 {
    /// A point from its three coordinates.
    pub fn new(x: Scalar, y: Scalar, z: Scalar) -> (r: Point3)
        ensures
            r.x == x,
            r.y == y,
            r.z == z,
    {
        Point3 { x, y, z }
    }

    /// First coordinate.
    pub fn x(&self) -> (r: Scalar)
        ensures
            r == self.x,
    {
        self.x
    }

    /// Second coordinate.
    pub fn y(&self) -> (r: Scalar)
        ensures
            r == self.y,
    {
        self.y
    }

    /// Third coordinate.
    pub fn z(&self) -> (r: Scalar)
        ensures
            r == self.z,
    {
        self.z
    }

    /// The affine weight of a point is exactly one.
    pub fn w(&self) -> (r: Scalar)
        ensures
            r.units == SCALE,
    {
        Scalar::one()
    }

    /// The planar projection: drops the third coordinate, giving a
    /// plane vector of the first two.
    pub fn xy(&self) -> (r: Vec2)
        ensures
            r.x == self.x,
            r.y == self.y,
    {
        Vec2::new(self.x, self.y)
    }

    /// Point plus vector is a point.
    pub fn add_vec(self, v: Vec3) -> (r: Point3)
        requires
            i64::MIN <= self.x.units + v.x.units <= i64::MAX,
            i64::MIN <= self.y.units + v.y.units <= i64::MAX,
            i64::MIN <= self.z.units + v.z.units <= i64::MAX,
        ensures
            r == pt3_add_vec(self, v),
    {
        Point3 { x: self.x.add(v.x), y: self.y.add(v.y), z: self.z.add(v.z) }
    }

    /// Point minus vector is a point.
    pub fn sub_vec(self, v: Vec3) -> (r: Point3)
        requires
            i64::MIN <= self.x.units - v.x.units <= i64::MAX,
            i64::MIN <= self.y.units - v.y.units <= i64::MAX,
            i64::MIN <= self.z.units - v.z.units <= i64::MAX,
        ensures
            r == pt3_sub_vec(self, v),
    {
        Point3 { x: self.x.sub(v.x), y: self.y.sub(v.y), z: self.z.sub(v.z) }
    }

    /// Point minus point is a vector: the result sheds the affine
    /// weight rather than leaving an ill-formed point.
    pub fn sub(self, other: Point3) -> (r: Vec3)
        requires
            i64::MIN <= self.x.units - other.x.units <= i64::MAX,
            i64::MIN <= self.y.units - other.y.units <= i64::MAX,
            i64::MIN <= self.z.units - other.z.units <= i64::MAX,
        ensures
            r == pt3_sub_point(self, other),
    {
        Vec3 { x: self.x.sub(other.x), y: self.y.sub(other.y), z: self.z.sub(other.z) }
    }

    /// Approximate equality: all coordinates within `1e-5`. The
    /// affine weights of two points are both one and always agree.
    pub fn almost_eq(&self, other: Point3) -> (r: bool)
        ensures
            r == (close_units(self.x.units as int, other.x.units as int) && close_units(
                self.y.units as int,
                other.y.units as int,
            ) && close_units(self.z.units as int, other.z.units as int)),
    {
        self.x.almost_eq(other.x) && self.y.almost_eq(other.y) && self.z.almost_eq(other.z)
    }
}

impl Vec3 {
    /// Vector plus point is a point; addition of a point and a vector
    /// is commutative, and only that pairing is.
    pub fn add_point(self, p: Point3) -> (r: Point3)
        requires
            i64::MIN <= p.x.units + self.x.units <= i64::MAX,
            i64::MIN <= p.y.units + self.y.units <= i64::MAX,
            i64::MIN <= p.z.units + self.z.units <= i64::MAX,
        ensures
            r == pt3_add_vec(p, self),
    {
        Point3 { x: p.x.add(self.x), y: p.y.add(self.y), z: p.z.add(self.z) }
    }
}

/// Equality on points is the componentwise approximate equality of
/// the kernel, not bitwise identity.
impl PartialEq for Point3 {
    fn eq(&self, other: &Point3) -> (r: bool) {
        self.almost_eq(*other)
    }
}

impl vstd::std_specs::cmp::PartialEqSpecImpl for Point3 {
    open spec fn obeys_eq_spec() -> bool {
        true
    }

    open spec fn eq_spec(&self, other: &Point3) -> bool {
        close_units(self.x.units as int, other.x.units as int) && close_units(
            self.y.units as int,
            other.y.units as int,
        ) && close_units(self.z.units as int, other.z.units as int)
    }
}

/// A point from its coordinates; its affine weight is one.
pub fn pt3(x: Scalar, y: Scalar, z: Scalar) -> (r: Point3)
    ensures
        r.x == x,
        r.y == y,
        r.z == z,
{
    Point3::new(x, y, z)
}

/// Adding a vector to a point and subtracting it again returns to the
/// original point exactly: the round trip of point/vector addition
/// and subtraction loses nothing.
pub proof fn lemma_pt3_add_sub_round_trip(p: Point3, v: Vec3)
    requires
        i64::MIN <= p.x.units + v.x.units <= i64::MAX,
        i64::MIN <= p.y.units + v.y.units <= i64::MAX,
        i64::MIN <= p.z.units + v.z.units <= i64::MAX,
    ensures
        pt3_sub_vec(pt3_add_vec(p, v), v) == p,
{
}

} // verus!
