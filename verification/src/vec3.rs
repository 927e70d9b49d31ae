//! Three-dimensional vectors: directions and displacements with an
//! implicit affine weight of zero, including the cross product.

use vstd::prelude::*;

use crate::scalar::{
    abs_int, close_units, div_units, in_coord_range, is_isqrt, isqrt_int, mul_units, Scalar,
    MAX_COORD_UNITS,
};
use crate::scalar::{
    isqrt_u128, lemma_component_le_length, lemma_component_sq_error, lemma_div_units_bounded,
    lemma_div_units_error, lemma_isqrt_of, lemma_mul_units_bound, lemma_mul_units_comm, magnitude,
    SCALE,
};

verus! {

/// A displacement in space; its affine weight is zero by
/// construction, so it never denotes a position.
#[derive(Clone, Copy, Debug)]
pub struct Vec3 {
    pub x: Scalar,
    pub y: Scalar,
    pub z: Scalar,
}

/// The squared length of the vector, in squared units.
pub open spec fn len2_units_3(x: int, y: int, z: int) -> int {
    x * x + y * y + z * z
}

/// All three components lie in the accepted coordinate range.
pub open spec fn vec3_in_range(v: Vec3) -> bool {
    in_coord_range(v.x.units as int) && in_coord_range(v.y.units as int) && in_coord_range(
        v.z.units as int,
    )
}

/// The componentwise negation of a vector.
pub open spec fn vec3_neg(v: Vec3) -> Vec3 {
    Vec3 {
        x: Scalar { units: (-v.x.units) as i64 },
        y: Scalar { units: (-v.y.units) as i64 },
        z: Scalar { units: (-v.z.units) as i64 },
    }
}

/// The right-handed cross product of two vectors, componentwise in
/// fixed point.
pub open spec fn cross_units(a: Vec3, b: Vec3) -> Vec3 {
    Vec3 {
        x: Scalar {
            units: (mul_units(a.y.units as int, b.z.units as int) - mul_units(
                a.z.units as int,
                b.y.units as int,
            )) as i64,
        },
        y: Scalar {
            units: (mul_units(a.z.units as int, b.x.units as int) - mul_units(
                a.x.units as int,
                b.z.units as int,
            )) as i64,
        },
        z: Scalar {
            units: (mul_units(a.x.units as int, b.y.units as int) - mul_units(
                a.y.units as int,
                b.x.units as int,
            )) as i64,
        },
    }
}

impl Vec3 {
    /// A vector from its three components.
    pub fn new(x: Scalar, y: Scalar, z: Scalar) -> (r: Vec3)
        ensures
            r.x == x,
            r.y == y,
            r.z == z,
    {
        Vec3 { x, y, z }
    }

    /// First component.
    pub fn x(&self) -> (r: Scalar)
        ensures
            r == self.x,
    {
        self.x
    }

    /// Second component.
    pub fn y(&self) -> (r: Scalar)
        ensures
            r == self.y,
    {
        self.y
    }

    /// Third component.
    pub fn z(&self) -> (r: Scalar)
        ensures
            r == self.z,
    {
        self.z
    }

    /// The affine weight of a vector is exactly zero.
    pub fn w(&self) -> (r: Scalar)
        ensures
            r.units == 0,
    {
        Scalar::zero()
    }

    /// Componentwise sum; vectors are closed under addition.
    pub fn add(self, other: Vec3) -> (r: Vec3)
        requires
            i64::MIN <= self.x.units + other.x.units <= i64::MAX,
            i64::MIN <= self.y.units + other.y.units <= i64::MAX,
            i64::MIN <= self.z.units + other.z.units <= i64::MAX,
        ensures
            r.x.units == self.x.units + other.x.units,
            r.y.units == self.y.units + other.y.units,
            r.z.units == self.z.units + other.z.units,
    {
        Vec3 { x: self.x.add(other.x), y: self.y.add(other.y), z: self.z.add(other.z) }
    }

    /// Componentwise difference.
    pub fn sub(self, other: Vec3) -> (r: Vec3)
        requires
            i64::MIN <= self.x.units - other.x.units <= i64::MAX,
            i64::MIN <= self.y.units - other.y.units <= i64::MAX,
            i64::MIN <= self.z.units - other.z.units <= i64::MAX,
        ensures
            r.x.units == self.x.units - other.x.units,
            r.y.units == self.y.units - other.y.units,
            r.z.units == self.z.units - other.z.units,
    {
        Vec3 { x: self.x.sub(other.x), y: self.y.sub(other.y), z: self.z.sub(other.z) }
    }

    /// Componentwise negation.
    pub fn neg(self) -> (r: Vec3)
        requires
            self.x.units != i64::MIN,
            self.y.units != i64::MIN,
            self.z.units != i64::MIN,
        ensures
            r == vec3_neg(self),
    {
        Vec3 { x: self.x.neg(), y: self.y.neg(), z: self.z.neg() }
    }

    /// Scales all components by a scalar factor.
    pub fn mul(self, scalar: Scalar) -> (r: Vec3)
        requires
            -i64::MAX <= mul_units(self.x.units as int, scalar.units as int) <= i64::MAX,
            -i64::MAX <= mul_units(self.y.units as int, scalar.units as int) <= i64::MAX,
            -i64::MAX <= mul_units(self.z.units as int, scalar.units as int) <= i64::MAX,
        ensures
            r.x.units == mul_units(self.x.units as int, scalar.units as int),
            r.y.units == mul_units(self.y.units as int, scalar.units as int),
            r.z.units == mul_units(self.z.units as int, scalar.units as int),
    {
        Vec3 { x: self.x.mul(scalar), y: self.y.mul(scalar), z: self.z.mul(scalar) }
    }

    /// Divides all components by a scalar factor.
    pub fn div(self, scalar: Scalar) -> (r: Vec3)
        requires
            scalar.units != 0,
            -i64::MAX <= div_units(self.x.units as int, scalar.units as int) <= i64::MAX,
            -i64::MAX <= div_units(self.y.units as int, scalar.units as int) <= i64::MAX,
            -i64::MAX <= div_units(self.z.units as int, scalar.units as int) <= i64::MAX,
        ensures
            r.x.units == div_units(self.x.units as int, scalar.units as int),
            r.y.units == div_units(self.y.units as int, scalar.units as int),
            r.z.units == div_units(self.z.units as int, scalar.units as int),
    {
        Vec3 { x: self.x.div(scalar), y: self.y.div(scalar), z: self.z.div(scalar) }
    }

    /// The dot product, the cosine-proportional similarity of the two
    /// directions: positive for aligned vectors, zero for orthogonal
    /// ones, negative for opposed ones.
    pub fn dot(&self, other: Vec3) -> (r: Scalar)
        requires
            vec3_in_range(*self),
            vec3_in_range(other),
        ensures
            r.units == mul_units(self.x.units as int, other.x.units as int) + mul_units(
                self.y.units as int,
                other.y.units as int,
            ) + mul_units(self.z.units as int, other.z.units as int),
    {
        proof {
            lemma_mul_units_bound(
                self.x.units as int,
                other.x.units as int,
                MAX_COORD_UNITS as int,
                MAX_COORD_UNITS as int,
            );
            lemma_mul_units_bound(
                self.y.units as int,
                other.y.units as int,
                MAX_COORD_UNITS as int,
                MAX_COORD_UNITS as int,
            );
            lemma_mul_units_bound(
                self.z.units as int,
                other.z.units as int,
                MAX_COORD_UNITS as int,
                MAX_COORD_UNITS as int,
            );
        }
        self.x.mul(other.x).add(self.y.mul(other.y)).add(self.z.mul(other.z))
    }

    /// The right-handed cross product: a vector perpendicular to both
    /// inputs. Swapping the inputs negates the output.
    pub fn cross(&self, other: Vec3) -> (r: Vec3)
        requires
            vec3_in_range(*self),
            vec3_in_range(other),
        ensures
            r == cross_units(*self, other),
    {
        proof {
            lemma_cross_units_fit(*self, other);
        }
        Vec3 {
            x: self.y.mul(other.z).sub(self.z.mul(other.y)),
            y: self.z.mul(other.x).sub(self.x.mul(other.z)),
            z: self.x.mul(other.y).sub(self.y.mul(other.x)),
        }
    }

    /// The Euclidean length: the integer square root of the squared
    /// length, which is zero exactly on the zero vector.
    pub fn length(&self) -> (r: Scalar)
        requires
            vec3_in_range(*self),
        ensures
            r.units as int == isqrt_int(
                len2_units_3(self.x.units as int, self.y.units as int, self.z.units as int),
            ),
            is_isqrt(
                r.units as int,
                len2_units_3(self.x.units as int, self.y.units as int, self.z.units as int),
            ),
            0 <= r.units,
    {
        let x_mag: u64 = magnitude(self.x.units);
        let y_mag: u64 = magnitude(self.y.units);
        let z_mag: u64 = magnitude(self.z.units);
        proof {
            assert((x_mag as int) * (x_mag as int) + (y_mag as int) * (y_mag as int) + (
            z_mag as int) * (z_mag as int) <= 3 * (MAX_COORD_UNITS as int) * (MAX_COORD_UNITS as int)
                && (x_mag as int) * (x_mag as int) == (self.x.units as int) * (self.x.units as int)
                && (y_mag as int) * (y_mag as int) == (self.y.units as int) * (self.y.units as int)
                && (z_mag as int) * (z_mag as int) == (self.z.units as int) * (self.z.units as int))
                by (nonlinear_arith)
                requires
                    x_mag as int == abs_int(self.x.units as int),
                    y_mag as int == abs_int(self.y.units as int),
                    z_mag as int == abs_int(self.z.units as int),
                    x_mag <= MAX_COORD_UNITS,
                    y_mag <= MAX_COORD_UNITS,
                    z_mag <= MAX_COORD_UNITS;
        }
        let len2: u128 = (x_mag as u128) * (x_mag as u128) + (y_mag as u128) * (y_mag as u128) + (
        z_mag as u128) * (z_mag as u128);
        let root: u64 = isqrt_u128(len2);
        proof {
            assert(root as int <= 2 * MAX_COORD_UNITS) by (nonlinear_arith)
                requires
                    is_isqrt(root as int, len2 as int),
                    len2 as int <= 3 * (MAX_COORD_UNITS as int) * (MAX_COORD_UNITS as int);
            lemma_isqrt_of(root as int, len2 as int);
        }
        Scalar { units: root as i64 }
    }

    /// Divides each component by the length, giving a vector whose
    /// length is one up to the rounding of fixed-point division.
    /// Defined only for vectors of nonzero length: normalizing the
    /// zero vector is rejected by the precondition rather than left
    /// to produce an undefined value.
    pub fn normalize(&self) -> (r: Vec3)
        requires
            vec3_in_range(*self),
            len2_units_3(self.x.units as int, self.y.units as int, self.z.units as int) > 0,
        ensures
            ({
                let l = isqrt_int(
                    len2_units_3(self.x.units as int, self.y.units as int, self.z.units as int),
                );
                r.x.units == div_units(self.x.units as int, l) && r.y.units == div_units(
                    self.y.units as int,
                    l,
                ) && r.z.units == div_units(self.z.units as int, l)
            }),
    {
        let len = self.length();
        proof {
            let len2 = len2_units_3(self.x.units as int, self.y.units as int, self.z.units as int);
            assert(len.units > 0) by {
                if len.units == 0 {
                    assert(len2 < 1);
                }
            }
            assert((self.x.units as int) * (self.x.units as int) >= 0) by (nonlinear_arith);
            assert((self.y.units as int) * (self.y.units as int) >= 0) by (nonlinear_arith);
            assert((self.z.units as int) * (self.z.units as int) >= 0) by (nonlinear_arith);
            lemma_component_le_length(
                self.x.units as int,
                len.units as int,
                (self.y.units as int) * (self.y.units as int) + (self.z.units as int) * (
                self.z.units as int),
            );
            lemma_component_le_length(
                self.y.units as int,
                len.units as int,
                (self.x.units as int) * (self.x.units as int) + (self.z.units as int) * (
                self.z.units as int),
            );
            lemma_component_le_length(
                self.z.units as int,
                len.units as int,
                (self.x.units as int) * (self.x.units as int) + (self.y.units as int) * (
                self.y.units as int),
            );
            lemma_div_units_bounded(self.x.units as int, len.units as int);
            lemma_div_units_bounded(self.y.units as int, len.units as int);
            lemma_div_units_bounded(self.z.units as int, len.units as int);
        }
        Vec3 { x: self.x.div(len), y: self.y.div(len), z: self.z.div(len) }
    }

    /// Approximate equality: all components within `1e-5`. The affine
    /// weights of two vectors are both zero and always agree.
    pub fn almost_eq(&self, other: Vec3) -> (r: bool)
        ensures
            r == (close_units(self.x.units as int, other.x.units as int) && close_units(
                self.y.units as int,
                other.y.units as int,
            ) && close_units(self.z.units as int, other.z.units as int)),
    {
        self.x.almost_eq(other.x) && self.y.almost_eq(other.y) && self.z.almost_eq(other.z)
    }
}

/// Equality on vectors is the componentwise approximate equality of
/// the kernel, not bitwise identity.
impl PartialEq for Vec3 {
    fn eq(&self, other: &Vec3) -> (r: bool) {
        self.almost_eq(*other)
    }
}

impl vstd::std_specs::cmp::PartialEqSpecImpl for Vec3 {
    open spec fn obeys_eq_spec() -> bool {
        true
    }

    open spec fn eq_spec(&self, other: &Vec3) -> bool {
        close_units(self.x.units as int, other.x.units as int) && close_units(
            self.y.units as int,
            other.y.units as int,
        ) && close_units(self.z.units as int, other.z.units as int)
    }
}

/// A vector from raw components; its affine weight is zero.
pub fn vec3(x: Scalar, y: Scalar, z: Scalar) -> (r: Vec3)
    ensures
        r.x == x,
        r.y == y,
        r.z == z,
{
    Vec3::new(x, y, z)
}

/// Every component of a cross product of in-range vectors fits the
/// machine representation.
proof fn lemma_cross_units_fit(a: Vec3, b: Vec3)
    requires
        vec3_in_range(a),
        vec3_in_range(b),
    ensures
        -i64::MAX <= mul_units(a.y.units as int, b.z.units as int) - mul_units(
            a.z.units as int,
            b.y.units as int,
        ) <= i64::MAX,
        -i64::MAX <= mul_units(a.z.units as int, b.x.units as int) - mul_units(
            a.x.units as int,
            b.z.units as int,
        ) <= i64::MAX,
        -i64::MAX <= mul_units(a.x.units as int, b.y.units as int) - mul_units(
            a.y.units as int,
            b.x.units as int,
        ) <= i64::MAX,
        abs_int(mul_units(a.x.units as int, b.y.units as int)) <= 1_000_000_000_000_000_000,
        abs_int(mul_units(a.y.units as int, b.z.units as int)) <= 1_000_000_000_000_000_000,
        abs_int(mul_units(a.z.units as int, b.x.units as int)) <= 1_000_000_000_000_000_000,
        abs_int(mul_units(a.y.units as int, b.x.units as int)) <= 1_000_000_000_000_000_000,
        abs_int(mul_units(a.z.units as int, b.y.units as int)) <= 1_000_000_000_000_000_000,
        abs_int(mul_units(a.x.units as int, b.z.units as int)) <= 1_000_000_000_000_000_000,
{
    let m = MAX_COORD_UNITS as int;
    lemma_mul_units_bound(a.x.units as int, b.y.units as int, m, m);
    lemma_mul_units_bound(a.y.units as int, b.z.units as int, m, m);
    lemma_mul_units_bound(a.z.units as int, b.x.units as int, m, m);
    lemma_mul_units_bound(a.y.units as int, b.x.units as int, m, m);
    lemma_mul_units_bound(a.z.units as int, b.y.units as int, m, m);
    lemma_mul_units_bound(a.x.units as int, b.z.units as int, m, m);
}

/// Normalizing any vector whose length is at least a fifth of one
/// yields a vector whose length is within `1e-5` of one; in
/// particular, normalizing any unit vector does. Here `l` is the
/// length of the input, the `n` components are the normalized
/// components, and `nl` is the length of the normalized vector.
pub proof fn lemma_normalize_near_unit_3(
    x: int,
    y: int,
    z: int,
    l: int,
    nx: int,
    ny: int,
    nz: int,
    nl: int,
)
    requires
        is_isqrt(l, len2_units_3(x, y, z)),
        5 * l >= SCALE,
        nx == div_units(x, l),
        ny == div_units(y, l),
        nz == div_units(z, l),
        is_isqrt(nl, len2_units_3(nx, ny, nz)),
    ensures
        close_units(nl, SCALE as int),
{
    let s = SCALE as int;
    assert(x * x >= 0 && y * y >= 0 && z * z >= 0) by (nonlinear_arith);
    lemma_component_le_length(x, l, y * y + z * z);
    lemma_component_le_length(y, l, x * x + z * z);
    lemma_component_le_length(z, l, x * x + y * y);
    lemma_div_units_error(x, l);
    lemma_div_units_error(y, l);
    lemma_div_units_error(z, l);
    lemma_component_sq_error(x, l, nx);
    lemma_component_sq_error(y, l, ny);
    lemma_component_sq_error(z, l, nz);
    let n2 = len2_units_3(nx, ny, nz);
    let len2 = len2_units_3(x, y, z);
    assert(len2 * (s * s) - 3 * ((2 * s + 1) * (l * l)) <= n2 * (l * l) && n2 * (l * l) <= len2
        * (s * s) + 3 * ((2 * s + 1) * (l * l))) by (nonlinear_arith)
        requires
            n2 == nx * nx + ny * ny + nz * nz,
            len2 == x * x + y * y + z * z,
            (x * x) * (s * s) - (2 * s + 1) * (l * l) <= (nx * nx) * (l * l),
            (nx * nx) * (l * l) <= (x * x) * (s * s) + (2 * s + 1) * (l * l),
            (y * y) * (s * s) - (2 * s + 1) * (l * l) <= (ny * ny) * (l * l),
            (ny * ny) * (l * l) <= (y * y) * (s * s) + (2 * s + 1) * (l * l),
            (z * z) * (s * s) - (2 * s + 1) * (l * l) <= (nz * nz) * (l * l),
            (nz * nz) * (l * l) <= (z * z) * (s * s) + (2 * s + 1) * (l * l);
    assert(n2 >= s * s - 6 * s - 3) by (nonlinear_arith)
        requires
            n2 * (l * l) >= len2 * (s * s) - 3 * ((2 * s + 1) * (l * l)),
            len2 >= l * l,
            l >= 1;
    assert(n2 < (s + 9) * (s + 9)) by (nonlinear_arith)
        requires
            n2 * (l * l) <= len2 * (s * s) + 3 * ((2 * s + 1) * (l * l)),
            len2 < (l + 1) * (l + 1),
            5 * l >= s,
            s == 1_000_000,
            l >= 1;
    assert(nl >= s - 4) by (nonlinear_arith)
        requires
            0 <= nl,
            n2 < (nl + 1) * (nl + 1),
            n2 >= s * s - 6 * s - 3,
            s == 1_000_000;
    assert(nl <= s + 8) by (nonlinear_arith)
        requires
            0 <= nl,
            nl * nl <= n2,
            n2 < (s + 9) * (s + 9),
            s == 1_000_000;
}

/// Swapping the inputs of the cross product negates the output
/// exactly, component by component.
pub proof fn lemma_cross_antisymmetric(a: Vec3, b: Vec3)
    requires
        vec3_in_range(a),
        vec3_in_range(b),
    ensures
        cross_units(a, b) == vec3_neg(cross_units(b, a)),
{
    lemma_cross_units_fit(a, b);
    lemma_cross_units_fit(b, a);
    lemma_mul_units_comm(a.x.units as int, b.y.units as int);
    lemma_mul_units_comm(a.y.units as int, b.z.units as int);
    lemma_mul_units_comm(a.z.units as int, b.x.units as int);
    lemma_mul_units_comm(a.y.units as int, b.x.units as int);
    lemma_mul_units_comm(a.z.units as int, b.y.units as int);
    lemma_mul_units_comm(a.x.units as int, b.z.units as int);
}

} // verus!
