//! Two-dimensional vectors: directions and displacements with an
//! implicit affine weight of zero.

use vstd::prelude::*;

use crate::scalar::{
    abs_int, close_units, div_units, in_coord_range, is_isqrt, isqrt_int, mul_units, Scalar,
    MAX_COORD_UNITS, SCALE,
};
use crate::scalar::{
    isqrt_u128, lemma_component_le_length, lemma_component_sq_error, lemma_div_units_bounded,
    lemma_div_units_error, lemma_isqrt_of, lemma_mul_units_bound, magnitude,
};
use crate::size2::Size2;

verus! {

/// A displacement in the plane; its affine weight is zero by
/// construction, so it never denotes a position.
#[derive(Clone, Copy, Debug)]
pub struct Vec2 {
    pub x: Scalar,
    pub y: Scalar,
}

/// The squared length of the vector, in squared units.
pub open spec fn len2_units_2(x: int, y: int) -> int {
    x * x + y * y
}

/// Both components lie in the accepted coordinate range.
pub open spec fn vec2_in_range(v: Vec2) -> bool {
    in_coord_range(v.x.units as int) && in_coord_range(v.y.units as int)
}

impl Vec2 {
    /// A vector from its two components.
    pub fn new(x: Scalar, y: Scalar) -> (r: Vec2)
        ensures
            r.x == x,
            r.y == y,
    {
        Vec2 { x, y }
    }

    /// First component.
    pub fn x(&self) -> (r: Scalar)
        ensures
            r == self.x,
    {
        self.x
    }

    /// Second component.
    pub fn y(&self) -> (r: Scalar)
        ensures
            r == self.y,
    {
        self.y
    }

    /// Componentwise sum; vectors are closed under addition.
    pub fn add(self, other: Vec2) -> (r: Vec2)
        requires
            i64::MIN <= self.x.units + other.x.units <= i64::MAX,
            i64::MIN <= self.y.units + other.y.units <= i64::MAX,
        ensures
            r.x.units == self.x.units + other.x.units,
            r.y.units == self.y.units + other.y.units,
    {
        Vec2 { x: self.x.add(other.x), y: self.y.add(other.y) }
    }

    /// Componentwise difference.
    pub fn sub(self, other: Vec2) -> (r: Vec2)
        requires
            i64::MIN <= self.x.units - other.x.units <= i64::MAX,
            i64::MIN <= self.y.units - other.y.units <= i64::MAX,
        ensures
            r.x.units == self.x.units - other.x.units,
            r.y.units == self.y.units - other.y.units,
    {
        Vec2 { x: self.x.sub(other.x), y: self.y.sub(other.y) }
    }

    /// Componentwise negation.
    pub fn neg(self) -> (r: Vec2)
        requires
            self.x.units != i64::MIN,
            self.y.units != i64::MIN,
        ensures
            r.x.units == -self.x.units,
            r.y.units == -self.y.units,
    {
        Vec2 { x: self.x.neg(), y: self.y.neg() }
    }

    /// Scales both components by a scalar factor.
    pub fn mul(self, scalar: Scalar) -> (r: Vec2)
        requires
            -i64::MAX <= mul_units(self.x.units as int, scalar.units as int) <= i64::MAX,
            -i64::MAX <= mul_units(self.y.units as int, scalar.units as int) <= i64::MAX,
        ensures
            r.x.units == mul_units(self.x.units as int, scalar.units as int),
            r.y.units == mul_units(self.y.units as int, scalar.units as int),
    {
        Vec2 { x: self.x.mul(scalar), y: self.y.mul(scalar) }
    }

    /// Divides both components by a scalar factor.
    pub fn div(self, scalar: Scalar) -> (r: Vec2)
        requires
            scalar.units != 0,
            -i64::MAX <= div_units(self.x.units as int, scalar.units as int) <= i64::MAX,
            -i64::MAX <= div_units(self.y.units as int, scalar.units as int) <= i64::MAX,
        ensures
            r.x.units == div_units(self.x.units as int, scalar.units as int),
            r.y.units == div_units(self.y.units as int, scalar.units as int),
    {
        Vec2 { x: self.x.div(scalar), y: self.y.div(scalar) }
    }

    /// The dot product, the cosine-proportional similarity of the two
    /// directions: positive for aligned vectors, zero for orthogonal
    /// ones, negative for opposed ones.
    pub fn dot(&self, other: Vec2) -> (r: Scalar)
        requires
            vec2_in_range(*self),
            vec2_in_range(other),
        ensures
            r.units == mul_units(self.x.units as int, other.x.units as int) + mul_units(
                self.y.units as int,
                other.y.units as int,
            ),
    {
        proof {
            lemma_mul_units_bound(
                self.x.units as int,
                other.x.units as int,
                MAX_COORD_UNITS as int,
                MAX_COORD_UNITS as int,
            );
            lemma_mul_units_bound(
                self.y.units as int,
                other.y.units as int,
                MAX_COORD_UNITS as int,
                MAX_COORD_UNITS as int,
            );
        }
        self.x.mul(other.x).add(self.y.mul(other.y))
    }

    /// The Euclidean length: the integer square root of the squared
    /// length, which is zero exactly on the zero vector.
    pub fn length(&self) -> (r: Scalar)
        requires
            vec2_in_range(*self),
        ensures
            r.units as int == isqrt_int(len2_units_2(self.x.units as int, self.y.units as int)),
            is_isqrt(r.units as int, len2_units_2(self.x.units as int, self.y.units as int)),
            0 <= r.units,
    {
        let x_mag: u64 = magnitude(self.x.units);
        let y_mag: u64 = magnitude(self.y.units);
        proof {
            assert((x_mag as int) * (x_mag as int) + (y_mag as int) * (y_mag as int) <= 2 * (
            MAX_COORD_UNITS as int) * (MAX_COORD_UNITS as int)
                && (x_mag as int) * (x_mag as int) == (self.x.units as int) * (self.x.units as int)
                && (y_mag as int) * (y_mag as int) == (self.y.units as int) * (self.y.units as int))
                by (nonlinear_arith)
                requires
                    x_mag as int == abs_int(self.x.units as int),
                    y_mag as int == abs_int(self.y.units as int),
                    x_mag <= MAX_COORD_UNITS,
                    y_mag <= MAX_COORD_UNITS;
        }
        let len2: u128 = (x_mag as u128) * (x_mag as u128) + (y_mag as u128) * (y_mag as u128);
        let root: u64 = isqrt_u128(len2);
        proof {
            assert(root as int <= 2 * MAX_COORD_UNITS) by (nonlinear_arith)
                requires
                    is_isqrt(root as int, len2 as int),
                    len2 as int <= 2 * (MAX_COORD_UNITS as int) * (MAX_COORD_UNITS as int);
            lemma_isqrt_of(root as int, len2 as int);
        }
        Scalar { units: root as i64 }
    }

    /// Divides each component by the length, giving a vector whose
    /// length is one up to the rounding of fixed-point division.
    /// Defined only for vectors of nonzero length: normalizing the
    /// zero vector is rejected by the precondition rather than left
    /// to produce an undefined value.
    pub fn normalize(&self) -> (r: Vec2)
        requires
            vec2_in_range(*self),
            len2_units_2(self.x.units as int, self.y.units as int) > 0,
        ensures
            ({
                let l = isqrt_int(len2_units_2(self.x.units as int, self.y.units as int));
                r.x.units == div_units(self.x.units as int, l) && r.y.units == div_units(
                    self.y.units as int,
                    l,
                )
            }),
    {
        let len = self.length();
        proof {
            let len2 = len2_units_2(self.x.units as int, self.y.units as int);
            assert(len.units > 0) by {
                if len.units == 0 {
                    assert(len2 < 1);
                }
            }
            assert((self.y.units as int) * (self.y.units as int) >= 0) by (nonlinear_arith);
            assert((self.x.units as int) * (self.x.units as int) >= 0) by (nonlinear_arith);
            assert(len2_units_2(self.x.units as int, self.y.units as int) == (self.x.units as int)
                * (self.x.units as int) + (self.y.units as int) * (self.y.units as int));
            lemma_component_le_length(
                self.x.units as int,
                len.units as int,
                (self.y.units as int) * (self.y.units as int),
            );
            lemma_component_le_length(
                self.y.units as int,
                len.units as int,
                (self.x.units as int) * (self.x.units as int),
            );
            lemma_div_units_bounded(self.x.units as int, len.units as int);
            lemma_div_units_bounded(self.y.units as int, len.units as int);
        }
        Vec2 { x: self.x.div(len), y: self.y.div(len) }
    }

    /// Denormalizes a vector of normalized coordinates against a
    /// canvas size: each component is scaled by the matching extent.
    pub fn wh(&self, size: &Size2) -> (r: Vec2)
        requires
            -i64::MAX <= mul_units(self.x.units as int, size.width.units as int) <= i64::MAX,
            -i64::MAX <= mul_units(self.y.units as int, size.height.units as int) <= i64::MAX,
        ensures
            r.x.units == mul_units(self.x.units as int, size.width.units as int),
            r.y.units == mul_units(self.y.units as int, size.height.units as int),
    {
        Vec2 { x: self.x.mul(size.width), y: self.y.mul(size.height) }
    }

    /// Approximate equality: both components within `1e-5`.
    pub fn almost_eq(&self, other: Vec2) -> (r: bool)
        ensures
            r == (close_units(self.x.units as int, other.x.units as int) && close_units(
                self.y.units as int,
                other.y.units as int,
            )),
    {
        self.x.almost_eq(other.x) && self.y.almost_eq(other.y)
    }
}

/// Equality on vectors is the componentwise approximate equality of
/// the kernel, not bitwise identity.
impl PartialEq for Vec2 {
    fn eq(&self, other: &Vec2) -> (r: bool) {
        self.almost_eq(*other)
    }
}

impl vstd::std_specs::cmp::PartialEqSpecImpl for Vec2 {
    open spec fn obeys_eq_spec() -> bool {
        true
    }

    open spec fn eq_spec(&self, other: &Vec2) -> bool {
        close_units(self.x.units as int, other.x.units as int) && close_units(
            self.y.units as int,
            other.y.units as int,
        )
    }
}

/// Normalizing any vector whose length is at least a fifth of one
/// yields a vector whose length is within `1e-5` of one; in
/// particular, normalizing any unit vector does. Here `l` is the
/// length of the input, the `n` components are the normalized
/// components, and `nl` is the length of the normalized vector.
pub proof fn lemma_normalize_near_unit_2(x: int, y: int, l: int, nx: int, ny: int, nl: int)
    requires
        is_isqrt(l, len2_units_2(x, y)),
        5 * l >= SCALE,
        nx == div_units(x, l),
        ny == div_units(y, l),
        is_isqrt(nl, len2_units_2(nx, ny)),
    ensures
        close_units(nl, SCALE as int),
{
    let s = SCALE as int;
    assert(x * x >= 0 && y * y >= 0) by (nonlinear_arith);
    lemma_component_le_length(x, l, y * y);
    lemma_component_le_length(y, l, x * x);
    lemma_div_units_error(x, l);
    lemma_div_units_error(y, l);
    lemma_component_sq_error(x, l, nx);
    lemma_component_sq_error(y, l, ny);
    let n2 = len2_units_2(nx, ny);
    let len2 = len2_units_2(x, y);
    assert(len2 * (s * s) - 2 * ((2 * s + 1) * (l * l)) <= n2 * (l * l) && n2 * (l * l) <= len2
        * (s * s) + 2 * ((2 * s + 1) * (l * l))) by (nonlinear_arith)
        requires
            n2 == nx * nx + ny * ny,
            len2 == x * x + y * y,
            (x * x) * (s * s) - (2 * s + 1) * (l * l) <= (nx * nx) * (l * l),
            (nx * nx) * (l * l) <= (x * x) * (s * s) + (2 * s + 1) * (l * l),
            (y * y) * (s * s) - (2 * s + 1) * (l * l) <= (ny * ny) * (l * l),
            (ny * ny) * (l * l) <= (y * y) * (s * s) + (2 * s + 1) * (l * l);
    assert(n2 >= s * s - 4 * s - 2) by (nonlinear_arith)
        requires
            n2 * (l * l) >= len2 * (s * s) - 2 * ((2 * s + 1) * (l * l)),
            len2 >= l * l,
            l >= 1;
    assert(n2 < (s + 9) * (s + 9)) by (nonlinear_arith)
        requires
            n2 * (l * l) <= len2 * (s * s) + 2 * ((2 * s + 1) * (l * l)),
            len2 < (l + 1) * (l + 1),
            5 * l >= s,
            s == 1_000_000,
            l >= 1;
    assert(nl >= s - 3) by (nonlinear_arith)
        requires
            0 <= nl,
            n2 < (nl + 1) * (nl + 1),
            n2 >= s * s - 4 * s - 2,
            s == 1_000_000;
    assert(nl <= s + 8) by (nonlinear_arith)
        requires
            0 <= nl,
            nl * nl <= n2,
            n2 < (s + 9) * (s + 9),
            s == 1_000_000;
}

/// A vector from raw unit counts; its affine weight is zero.
pub fn vec2(x: Scalar, y: Scalar) -> (r: Vec2)
    ensures
        r.x == x,
        r.y == y,
{
    Vec2::new(x, y)
}

} // verus!
