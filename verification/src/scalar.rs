//! Fixed-point scalars and the numeric utilities built on them.
//!
//! A [`Scalar`] stores a real quantity as a signed count of millionths:
//! `units == 1_000_000` stands for one. All kernel arithmetic is exact
//! integer arithmetic on these units; products and quotients truncate
//! toward zero, mirroring the usual hardware convention.

use vstd::prelude::*;

verus! {

/// Number of units that make up one whole: a `Scalar` stores millionths.
pub const SCALE: i64 = 1_000_000;

/// Absolute tolerance used by approximate equality: `1e-5`, i.e. ten units.
pub const EPSILON_UNITS: i64 = 10;

/// Two to the sixty-fourth power, the exclusive upper bound of `u64`.
pub const TWO_POW_64: u128 = 0x1_0000_0000_0000_0000;

/// A real quantity in fixed-point representation: `units` millionths.
#[derive(Clone, Copy, Debug, PartialEq, Eq, Structural)]
pub struct Scalar {
    pub units: i64,
}

/// Magnitude of a mathematical integer.
pub open spec fn abs_int(a: int) -> int {
    if a < 0 {
        -a
    } else {
        a
    }
}

/// Units of the product of two scalars: `a * b / SCALE`, truncated toward zero.
pub open spec fn mul_units(a: int, b: int) -> int {
    if (a < 0) != (b < 0) {
        -((abs_int(a) * abs_int(b)) / (SCALE as int))
    } else {
        (abs_int(a) * abs_int(b)) / (SCALE as int)
    }
}

/// Units of the quotient of two scalars: `a * SCALE / b`, truncated toward zero.
pub open spec fn div_units(a: int, b: int) -> int
    recommends
        b != 0,
{
    if (a < 0) != (b < 0) {
        -((abs_int(a) * (SCALE as int)) / abs_int(b))
    } else {
        (abs_int(a) * (SCALE as int)) / abs_int(b)
    }
}

/// Sum of two unit counts, clamped to the representable range.
pub open spec fn saturating_add_units(a: int, b: int) -> int {
    if a + b > i64::MAX {
        i64::MAX as int
    } else if a + b < i64::MIN {
        i64::MIN as int
    } else {
        a + b
    }
}

/// `r` is the integer square root of `a`: the largest integer whose
/// square does not exceed `a`.
pub open spec fn is_isqrt(r: int, a: int) -> bool {
    0 <= r && r * r <= a && a < (r + 1) * (r + 1)
}

/// The integer square root of a non-negative `a`.
pub open spec fn isqrt_int(a: int) -> int {
    choose|r: int| is_isqrt(r, a)
}

/// Largest coordinate magnitude, in units, that the vector operations
/// accept: a million whole units, far beyond any canvas.
pub const MAX_COORD_UNITS: i64 = 1_000_000_000_000;

/// A unit count small enough for the squared-length computations.
pub open spec fn in_coord_range(u: int) -> bool {
    -MAX_COORD_UNITS <= u <= MAX_COORD_UNITS
}

/// Two unit counts are close when they differ by less than [`EPSILON_UNITS`].
pub open spec fn close_units(a: int, b: int) -> bool {
    abs_int(a - b) < EPSILON_UNITS
}

/// Magnitude of a machine integer, as an unsigned machine integer.
pub(crate) fn magnitude(x: i64) -> (m: u64)
    ensures
        m as int == abs_int(x as int),
{
    if x >= 0 {
        x as u64
    } else {
        ((-(x + 1)) as u64) + 1
    }
}

impl Scalar {
    /// Wraps a raw count of millionths.
    pub fn from_units(units: i64) -> (r: Scalar)
        ensures
            r.units == units,
    {
        Scalar { units }
    }

    /// The scalar standing for the whole number `n`.
    pub fn from_int(n: i64) -> (r: Scalar)
        requires
            n * SCALE <= i64::MAX,
            i64::MIN <= n * SCALE,
        ensures
            r.units == n * SCALE,
    {
        Scalar { units: n * SCALE }
    }

    /// Zero.
    pub fn zero() -> (r: Scalar)
        ensures
            r.units == 0,
    {
        Scalar { units: 0 }
    }

    /// One.
    pub fn one() -> (r: Scalar)
        ensures
            r.units == SCALE,
    {
        Scalar { units: SCALE }
    }

    /// Exact sum.
    pub fn add(self, other: Scalar) -> (r: Scalar)
        requires
            i64::MIN <= self.units + other.units <= i64::MAX,
        ensures
            r.units == self.units + other.units,
    {
        Scalar { units: self.units + other.units }
    }

    /// Exact difference.
    pub fn sub(self, other: Scalar) -> (r: Scalar)
        requires
            i64::MIN <= self.units - other.units <= i64::MAX,
        ensures
            r.units == self.units - other.units,
    {
        Scalar { units: self.units - other.units }
    }

    /// Exact negation.
    pub fn neg(self) -> (r: Scalar)
        requires
            self.units != i64::MIN,
        ensures
            r.units == -self.units,
    {
        Scalar { units: -self.units }
    }

    /// Sum clamped to the representable range; total on all inputs.
    pub fn saturating_add(self, other: Scalar) -> (r: Scalar)
        ensures
            r.units == saturating_add_units(self.units as int, other.units as int),
    {
        match self.units.checked_add(other.units) {
            Some(units) => Scalar { units },
            None => {
                if self.units >= 0 {
                    Scalar { units: i64::MAX }
                } else {
                    Scalar { units: i64::MIN }
                }
            },
        }
    }

    /// Exact product, truncated toward zero at the millionth.
    pub fn mul(self, other: Scalar) -> (r: Scalar)
        requires
            -i64::MAX <= mul_units(self.units as int, other.units as int) <= i64::MAX,
        ensures
            r.units == mul_units(self.units as int, other.units as int),
    {
        let negative: bool = (self.units < 0) != (other.units < 0);
        let a_mag: u64 = magnitude(self.units);
        let b_mag: u64 = magnitude(other.units);
        proof {
            assert((a_mag as int) * (b_mag as int) <= u128::MAX) by (nonlinear_arith)
                requires
                    a_mag as int <= 0x8000_0000_0000_0000,
                    b_mag as int <= 0x8000_0000_0000_0000;
        }
        let wide: u128 = (a_mag as u128) * (b_mag as u128);
        let quotient: u128 = wide / (SCALE as u128);
        if negative {
            Scalar { units: -(quotient as i64) }
        } else {
            Scalar { units: quotient as i64 }
        }
    }

    /// Exact quotient, truncated toward zero at the millionth.
    pub fn div(self, other: Scalar) -> (r: Scalar)
        requires
            other.units != 0,
            -i64::MAX <= div_units(self.units as int, other.units as int) <= i64::MAX,
        ensures
            r.units == div_units(self.units as int, other.units as int),
    {
        let negative: bool = (self.units < 0) != (other.units < 0);
        let a_mag: u64 = magnitude(self.units);
        let b_mag: u64 = magnitude(other.units);
        proof {
            assert((a_mag as int) * (SCALE as int) <= u128::MAX) by (nonlinear_arith)
                requires
                    a_mag as int <= 0x8000_0000_0000_0000;
        }
        let wide: u128 = (a_mag as u128) * (SCALE as u128);
        let quotient: u128 = wide / (b_mag as u128);
        if negative {
            Scalar { units: -(quotient as i64) }
        } else {
            Scalar { units: quotient as i64 }
        }
    }

    /// Approximate equality within the absolute tolerance `1e-5`.
    pub fn almost_eq(&self, other: Scalar) -> (r: bool)
        ensures
            r == close_units(self.units as int, other.units as int),
    {
        let difference: Option<i64> = if self.units >= other.units {
            self.units.checked_sub(other.units)
        } else {
            other.units.checked_sub(self.units)
        };
        match difference {
            Some(d) => d < EPSILON_UNITS,
            None => false,
        }
    }
}

/// Units of `denormalize(v, min, max)`: the linear interpolation
/// `v * (max - min) + min` carried out in fixed point.
pub open spec fn denormalize_units(v: int, min: int, max: int) -> int {
    mul_units(v, max - min) + min
}

/// Maps a normalized value `v` into the range from `min` to `max` by
/// pure linear interpolation: `v * (max - min) + min`.
pub fn denormalize(v: Scalar, min: Scalar, max: Scalar) -> (r: Scalar)
    requires
        i64::MIN <= max.units - min.units <= i64::MAX,
        -i64::MAX <= mul_units(v.units as int, max.units - min.units) <= i64::MAX,
        i64::MIN <= denormalize_units(v.units as int, min.units as int, max.units as int)
            <= i64::MAX,
    ensures
        r.units == denormalize_units(v.units as int, min.units as int, max.units as int),
{
    v.mul(max.sub(min)).add(min)
}

/// The integer square root of `a`, found by binary search.
pub fn isqrt_u128(a: u128) -> (r: u64)
    ensures
        is_isqrt(r as int, a as int),
{
    if a == 0 {
        return 0;
    }
    let mut lo: u128 = 0;
    let mut hi: u128 = TWO_POW_64;
    while lo + 1 < hi
        invariant
            0 <= lo < hi <= TWO_POW_64,
            (lo as int) * (lo as int) <= a as int,
            (a as int) < (hi as int) * (hi as int),
        decreases hi - lo,
    {
        let mid: u128 = lo + (hi - lo) / 2;
        proof {
            assert((mid as int) * (mid as int) <= u128::MAX) by (nonlinear_arith)
                requires
                    mid as int <= 0xffff_ffff_ffff_ffff;
        }
        if mid * mid <= a {
            lo = mid;
        } else {
            hi = mid;
        }
    }
    proof {
        assert((hi as int) * (hi as int) <= ((lo as int) + 1) * ((lo as int) + 1))
            by (nonlinear_arith)
            requires
                0 <= hi <= lo + 1;
    }
    lo as u64
}

/// A witness for the characterization fixes the value of [`isqrt_int`].
pub proof fn lemma_isqrt_of(r: int, a: int)
    requires
        is_isqrt(r, a),
    ensures
        isqrt_int(a) == r,
{
    assert(is_isqrt(isqrt_int(a), a)) by {
        assert(exists|s: int| is_isqrt(s, a)) by {
            assert(is_isqrt(r, a));
        }
    }
    lemma_isqrt_unique(isqrt_int(a), r, a);
}

/// A component of a vector is never longer than the whole vector:
/// if `l` is the integer square root of `x * x + rest` with `rest`
/// non-negative, then `|x| <= l`.
pub proof fn lemma_component_le_length(x: int, l: int, rest: int)
    by (nonlinear_arith)
    requires
        0 <= rest,
        is_isqrt(l, x * x + rest),
    ensures
        abs_int(x) <= l,
{
}

/// Dividing a component by a length at least as large keeps the
/// quotient within one whole unit.
pub proof fn lemma_div_units_bounded(x: int, l: int)
    requires
        1 <= l,
        abs_int(x) <= l,
    ensures
        0 <= abs_int(div_units(x, l)) <= SCALE,
{
    let m = abs_int(x);
    vstd::arithmetic::mul::lemma_mul_inequality(m, l, SCALE as int);
    vstd::arithmetic::div_mod::lemma_div_is_ordered(m * (SCALE as int), l * (SCALE as int), l);
    vstd::arithmetic::div_mod::lemma_div_by_multiple(SCALE as int, l);
    assert((SCALE as int) * l == l * (SCALE as int))
        by (nonlinear_arith);
    vstd::arithmetic::div_mod::lemma_div_pos_is_pos(m * (SCALE as int), l);
}

/// The magnitude of a truncated fixed-point product is bounded by the
/// product of the factors' magnitude bounds, scaled down.
pub proof fn lemma_mul_units_bound(a: int, b: int, ma: int, mb: int)
    requires
        abs_int(a) <= ma,
        abs_int(b) <= mb,
    ensures
        0 <= abs_int(mul_units(a, b)) <= (ma * mb) / (SCALE as int),
{
    vstd::arithmetic::mul::lemma_mul_upper_bound(abs_int(a), ma, abs_int(b), mb);
    vstd::arithmetic::div_mod::lemma_div_is_ordered(
        abs_int(a) * abs_int(b),
        ma * mb,
        SCALE as int,
    );
    vstd::arithmetic::div_mod::lemma_div_pos_is_pos(abs_int(a) * abs_int(b), SCALE as int);
    assert(abs_int(a) * abs_int(b) >= 0) by (nonlinear_arith)
        requires
            abs_int(a) >= 0,
            abs_int(b) >= 0;
}

/// Fixed-point division leaves an error of less than one part in the
/// divisor: scaling the quotient back up lands within `l` of the
/// scaled dividend.
pub proof fn lemma_div_units_error(x: int, l: int)
    requires
        1 <= l,
    ensures
        abs_int(div_units(x, l) * l - x * (SCALE as int)) < l,
{
    let m = abs_int(x);
    let q = (m * (SCALE as int)) / l;
    let rho = (m * (SCALE as int)) % l;
    vstd::arithmetic::div_mod::lemma_fundamental_div_mod(m * (SCALE as int), l);
    vstd::arithmetic::div_mod::lemma_mod_division_less_than_divisor(m * (SCALE as int), l);
    if x < 0 {
        assert(div_units(x, l) == -q);
        assert(abs_int((-q) * l - x * (SCALE as int)) < l) by (nonlinear_arith)
            requires
                x == -m,
                m * (SCALE as int) == l * q + rho,
                0 <= rho && rho < l;
    } else {
        assert(div_units(x, l) == q);
        assert(abs_int(q * l - x * (SCALE as int)) < l) by (nonlinear_arith)
            requires
                x == m,
                m * (SCALE as int) == l * q + rho,
                0 <= rho && rho < l;
    }
}

/// Scaling a component up by the quotient's denominator perturbs its
/// square by at most a bounded error term.
pub(crate) proof fn lemma_component_sq_error(xi: int, l: int, ni: int)
    by (nonlinear_arith)
    requires
        1 <= l,
        abs_int(xi) <= l,
        abs_int(ni * l - xi * (SCALE as int)) < l,
    ensures
        (xi * xi) * ((SCALE as int) * (SCALE as int)) - (2 * (SCALE as int) + 1) * (l * l) <= (ni
            * ni) * (l * l),
        (ni * ni) * (l * l) <= (xi * xi) * ((SCALE as int) * (SCALE as int)) + (2 * (SCALE as int)
            + 1) * (l * l),
{
}

/// Fixed-point multiplication is commutative.
pub proof fn lemma_mul_units_comm(a: int, b: int)
    ensures
        mul_units(a, b) == mul_units(b, a),
{
    vstd::arithmetic::mul::lemma_mul_is_commutative(abs_int(a), abs_int(b));
}

/// The integer square root is unique: any two values satisfying the
/// characterization agree.
pub proof fn lemma_isqrt_unique(r1: int, r2: int, a: int)
    by (nonlinear_arith)
    requires
        is_isqrt(r1, a),
        is_isqrt(r2, a),
    ensures
        r1 == r2,
{
}

/// Multiplying one by any scalar gives that scalar back exactly, so
/// `denormalize(0, min, max) == min` and `denormalize(1, min, max) == max`
/// hold exactly.
pub proof fn lemma_denormalize_endpoints(min: int, max: int)
    ensures
        denormalize_units(0, min, max) == min,
        denormalize_units(SCALE as int, min, max) == max,
{
    lemma_mul_one_exact(max - min);
    assert(mul_units(0, max - min) == 0) by {
        assert(abs_int(0) * abs_int(max - min) == 0) by (nonlinear_arith);
    }
}

/// `1.0 * b == b` exactly in fixed point.
pub proof fn lemma_mul_one_exact(b: int)
    ensures
        mul_units(SCALE as int, b) == b,
{
    assert((SCALE as int) * abs_int(b) == abs_int(b) * (SCALE as int)) by (nonlinear_arith);
    vstd::arithmetic::div_mod::lemma_div_by_multiple(abs_int(b), SCALE as int);
    assert((abs_int(b) * (SCALE as int)) / (SCALE as int) == abs_int(b));
}

} // verus!
