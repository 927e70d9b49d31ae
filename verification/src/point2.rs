//! Two-dimensional points: positions with an implicit affine weight
//! of one. The algebra keeps the weight invariant by construction:
//! point plus vector is a point, point minus point is a vector, and
//! no operation can produce an ill-formed point.

use vstd::prelude::*;

use crate::scalar::{close_units, mul_units, Scalar};
use crate::size2::Size2;
use crate::vec2::Vec2;

verus! {

/// A position in the plane; its affine weight is one by construction.
#[derive(Clone, Copy, Debug)]
pub struct Point2 {
    pub x: Scalar,
    pub y: Scalar,
}

/// The point reached by following `v` from `p`.
pub open spec fn pt2_add_vec(p: Point2, v: Vec2) -> Point2 {
    Point2 {
        x: Scalar { units: (p.x.units + v.x.units) as i64 },
        y: Scalar { units: (p.y.units + v.y.units) as i64 },
    }
}

/// The point reached by moving backwards along `v` from `p`.
pub open spec fn pt2_sub_vec(p: Point2, v: Vec2) -> Point2 {
    Point2 {
        x: Scalar { units: (p.x.units - v.x.units) as i64 },
        y: Scalar { units: (p.y.units - v.y.units) as i64 },
    }
}

/// The displacement from `q` to `p`.
pub open spec fn pt2_sub_point(p: Point2, q: Point2) -> Vec2 {
    Vec2 {
        x: Scalar { units: (p.x.units - q.x.units) as i64 },
        y: Scalar { units: (p.y.units - q.y.units) as i64 },
    }
}

impl Point2 {
    /// A point from its two coordinates.
    pub fn new(x: Scalar, y: Scalar) -> (r: Point2)
        ensures
            r.x == x,
            r.y == y,
    {
        Point2 { x, y }
    }

    /// First coordinate.
    pub fn x(&self) -> (r: Scalar)
        ensures
            r == self.x,
    {
        self.x
    }

    /// Second coordinate.
    pub fn y(&self) -> (r: Scalar)
        ensures
            r == self.y,
    {
        self.y
    }

    /// Denormalizes a point of normalized coordinates against a
    /// canvas size: each coordinate is scaled by the matching extent.
    pub fn wh(&self, size: &Size2) -> (r: Point2)
        requires
            -i64::MAX <= mul_units(self.x.units as int, size.width.units as int) <= i64::MAX,
            -i64::MAX <= mul_units(self.y.units as int, size.height.units as int) <= i64::MAX,
        ensures
            r.x.units == mul_units(self.x.units as int, size.width.units as int),
            r.y.units == mul_units(self.y.units as int, size.height.units as int),
    {
        Point2 { x: self.x.mul(size.width), y: self.y.mul(size.height) }
    }

    /// Flips the point so that a zero second coordinate sits at the
    /// bottom of a canvas of the given height instead of the top.
    /// Must be applied exactly once per logical-to-pixel conversion.
    pub fn flip_y(&self, height: Scalar) -> (r: Point2)
        requires
            i64::MIN <= height.units - self.y.units <= i64::MAX,
        ensures
            r.x == self.x,
            r.y.units == height.units - self.y.units,
    {
        Point2 { x: self.x, y: height.sub(self.y) }
    }

    /// Point plus vector is a point.
    pub fn add_vec(self, v: Vec2) -> (r: Point2)
        requires
            i64::MIN <= self.x.units + v.x.units <= i64::MAX,
            i64::MIN <= self.y.units + v.y.units <= i64::MAX,
        ensures
            r == pt2_add_vec(self, v),
    {
        Point2 { x: self.x.add(v.x), y: self.y.add(v.y) }
    }

    /// Point minus vector is a point.
    pub fn sub_vec(self, v: Vec2) -> (r: Point2)
        requires
            i64::MIN <= self.x.units - v.x.units <= i64::MAX,
            i64::MIN <= self.y.units - v.y.units <= i64::MAX,
        ensures
            r == pt2_sub_vec(self, v),
    {
        Point2 { x: self.x.sub(v.x), y: self.y.sub(v.y) }
    }

    /// Point minus point is a vector: the result sheds the affine
    /// weight rather than leaving an ill-formed point.
    pub fn sub(self, other: Point2) -> (r: Vec2)
        requires
            i64::MIN <= self.x.units - other.x.units <= i64::MAX,
            i64::MIN <= self.y.units - other.y.units <= i64::MAX,
        ensures
            r == pt2_sub_point(self, other),
    {
        Vec2 { x: self.x.sub(other.x), y: self.y.sub(other.y) }
    }

    /// Approximate equality: both coordinates within `1e-5`.
    pub fn almost_eq(&self, other: Point2) -> (r: bool)
        ensures
            r == (close_units(self.x.units as int, other.x.units as int) && close_units(
                self.y.units as int,
                other.y.units as int,
            )),
    {
        self.x.almost_eq(other.x) && self.y.almost_eq(other.y)
    }
}

impl Vec2 {
    /// Vector plus point is a point; addition of a point and a vector
    /// is commutative, and only that pairing is.
    pub fn add_point(self, p: Point2) -> (r: Point2)
        requires
            i64::MIN <= p.x.units + self.x.units <= i64::MAX,
            i64::MIN <= p.y.units + self.y.units <= i64::MAX,
        ensures
            r == pt2_add_vec(p, self),
    {
        Point2 { x: p.x.add(self.x), y: p.y.add(self.y) }
    }
}

/// Equality on points is the componentwise approximate equality of
/// the kernel, not bitwise identity.
impl PartialEq for Point2 {
    fn eq(&self, other: &Point2) -> (r: bool) {
        self.almost_eq(*other)
    }
}

impl vstd::std_specs::cmp::PartialEqSpecImpl for Point2 {
    open spec fn obeys_eq_spec() -> bool {
        true
    }

    open spec fn eq_spec(&self, other: &Point2) -> bool {
        close_units(self.x.units as int, other.x.units as int) && close_units(
            self.y.units as int,
            other.y.units as int,
        )
    }
}

/// A point from its coordinates; its affine weight is one.
pub fn pt2(x: Scalar, y: Scalar) -> (r: Point2)
    ensures
        r.x == x,
        r.y == y,
{
    Point2::new(x, y)
}

/// Adding a vector to a point and subtracting it again returns to the
/// original point exactly: the round trip of point/vector addition
/// and subtraction loses nothing.
pub proof fn lemma_pt2_add_sub_round_trip(p: Point2, v: Vec2)
    requires
        i64::MIN <= p.x.units + v.x.units <= i64::MAX,
        i64::MIN <= p.y.units + v.y.units <= i64::MAX,
    ensures
        pt2_sub_vec(pt2_add_vec(p, v), v) == p,
{
}

} // verus!
