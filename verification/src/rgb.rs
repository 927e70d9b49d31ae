//! Colors with unconstrained red, green and blue components.
//!
//! Components are not clamped at construction; clamping happens only
//! when narrowing to the 8-bit stored form, where each channel is
//! clipped to the unit interval and rounded to the nearest of 256
//! steps.

use vstd::prelude::*;

use crate::scalar::{close_units, mul_units, Scalar, SCALE};

verus! {

/// Half of one whole, used to round to the nearest step.
pub const HALF_SCALE: i64 = 500_000;

/// A color of three fixed-point components, each nominally in the
/// unit interval but free to leave it until narrowed to bytes.
#[derive(Clone, Copy, Debug)]
pub struct Rgb {
    pub red: Scalar,
    pub green: Scalar,
    pub blue: Scalar,
}

/// The stored byte of one channel: the component is clipped to the
/// unit interval, scaled to 255 and rounded to the nearest integer.
pub open spec fn quantize_channel_units(u: int) -> int {
    if u <= 0 {
        0
    } else if u >= SCALE {
        255
    } else {
        (u * 255 + (HALF_SCALE as int)) / (SCALE as int)
    }
}

/// The component encoded by a stored byte: `b / 255`, truncated at
/// the millionth.
pub open spec fn channel_from_byte(b: int) -> int {
    (b * (SCALE as int)) / 255
}

impl Rgb {
    /// The black color: all components zero.
    pub fn black() -> (r: Rgb)
        ensures
            r.red.units == 0,
            r.green.units == 0,
            r.blue.units == 0,
    {
        Rgb { red: Scalar::zero(), green: Scalar::zero(), blue: Scalar::zero() }
    }

    /// A color from its components.
    pub fn new(red: Scalar, green: Scalar, blue: Scalar) -> (r: Rgb)
        ensures
            r.red == red,
            r.green == green,
            r.blue == blue,
    {
        Rgb { red, green, blue }
    }

    /// Red component.
    pub fn red(&self) -> (r: Scalar)
        ensures
            r == self.red,
    {
        self.red
    }

    /// Green component.
    pub fn green(&self) -> (r: Scalar)
        ensures
            r == self.green,
    {
        self.green
    }

    /// Blue component.
    pub fn blue(&self) -> (r: Scalar)
        ensures
            r == self.blue,
    {
        self.blue
    }

    /// The three components, red first.
    pub fn components(&self) -> (r: [Scalar; 3])
        ensures
            r[0] == self.red,
            r[1] == self.green,
            r[2] == self.blue,
    {
        [self.red, self.green, self.blue]
    }

    /// Componentwise sum.
    pub fn add(self, other: Rgb) -> (r: Rgb)
        requires
            i64::MIN <= self.red.units + other.red.units <= i64::MAX,
            i64::MIN <= self.green.units + other.green.units <= i64::MAX,
            i64::MIN <= self.blue.units + other.blue.units <= i64::MAX,
        ensures
            r.red.units == self.red.units + other.red.units,
            r.green.units == self.green.units + other.green.units,
            r.blue.units == self.blue.units + other.blue.units,
    {
        Rgb {
            red: self.red.add(other.red),
            green: self.green.add(other.green),
            blue: self.blue.add(other.blue),
        }
    }

    /// Componentwise difference.
    pub fn sub(self, other: Rgb) -> (r: Rgb)
        requires
            i64::MIN <= self.red.units - other.red.units <= i64::MAX,
            i64::MIN <= self.green.units - other.green.units <= i64::MAX,
            i64::MIN <= self.blue.units - other.blue.units <= i64::MAX,
        ensures
            r.red.units == self.red.units - other.red.units,
            r.green.units == self.green.units - other.green.units,
            r.blue.units == self.blue.units - other.blue.units,
    {
        Rgb {
            red: self.red.sub(other.red),
            green: self.green.sub(other.green),
            blue: self.blue.sub(other.blue),
        }
    }

    /// Scales each component by the scalar: the scalar product is
    /// componentwise linear, so the red of `c * s` is exactly the
    /// red of `c` times `s`, and likewise for green and blue.
    pub fn mul(self, scalar: Scalar) -> (r: Rgb)
        requires
            -i64::MAX <= mul_units(self.red.units as int, scalar.units as int) <= i64::MAX,
            -i64::MAX <= mul_units(self.green.units as int, scalar.units as int) <= i64::MAX,
            -i64::MAX <= mul_units(self.blue.units as int, scalar.units as int) <= i64::MAX,
        ensures
            r.red.units == mul_units(self.red.units as int, scalar.units as int),
            r.green.units == mul_units(self.green.units as int, scalar.units as int),
            r.blue.units == mul_units(self.blue.units as int, scalar.units as int),
    {
        Rgb {
            red: self.red.mul(scalar),
            green: self.green.mul(scalar),
            blue: self.blue.mul(scalar),
        }
    }

    /// The componentwise (Hadamard) product of two colors.
    pub fn mul_rgb(self, other: Rgb) -> (r: Rgb)
        requires
            -i64::MAX <= mul_units(self.red.units as int, other.red.units as int) <= i64::MAX,
            -i64::MAX <= mul_units(self.green.units as int, other.green.units as int) <= i64::MAX,
            -i64::MAX <= mul_units(self.blue.units as int, other.blue.units as int) <= i64::MAX,
        ensures
            r.red.units == mul_units(self.red.units as int, other.red.units as int),
            r.green.units == mul_units(self.green.units as int, other.green.units as int),
            r.blue.units == mul_units(self.blue.units as int, other.blue.units as int),
    {
        Rgb {
            red: self.red.mul(other.red),
            green: self.green.mul(other.green),
            blue: self.blue.mul(other.blue),
        }
    }

    /// Approximate equality: all components within `1e-5`.
    pub fn almost_eq(&self, other: Rgb) -> (r: bool)
        ensures
            r == (close_units(self.red.units as int, other.red.units as int) && close_units(
                self.green.units as int,
                other.green.units as int,
            ) && close_units(self.blue.units as int, other.blue.units as int)),
    {
        self.red.almost_eq(other.red) && self.green.almost_eq(other.green) && self.blue.almost_eq(
            other.blue,
        )
    }

    /// The color stored in the first three bytes of a pixel, each
    /// byte read back as a component in the unit interval.
    pub fn from_bytes(bytes: &[u8; 4]) -> (r: Rgb)
        ensures
            r.red.units == channel_from_byte(bytes[0] as int),
            r.green.units == channel_from_byte(bytes[1] as int),
            r.blue.units == channel_from_byte(bytes[2] as int),
    {
        Rgb {
            red: byte_to_channel(bytes[0]),
            green: byte_to_channel(bytes[1]),
            blue: byte_to_channel(bytes[2]),
        }
    }

    /// The four stored bytes of the color with the given alpha, in
    /// the order red, green, blue, alpha. Each channel is clipped to
    /// the unit interval and rounded to the nearest of 256 steps;
    /// alpha is stored as-is, not premultiplied.
    pub fn to_srgba_bytes(&self, alpha: Scalar) -> (r: [u8; 4])
        ensures
            r[0] as int == quantize_channel_units(self.red.units as int),
            r[1] as int == quantize_channel_units(self.green.units as int),
            r[2] as int == quantize_channel_units(self.blue.units as int),
            r[3] as int == quantize_channel_units(alpha.units as int),
    {
        [
            channel_to_byte(self.red),
            channel_to_byte(self.green),
            channel_to_byte(self.blue),
            channel_to_byte(alpha),
        ]
    }
}

/// Equality on colors is the componentwise approximate equality of
/// the kernel, not bitwise identity.
impl PartialEq for Rgb {
    fn eq(&self, other: &Rgb) -> (r: bool) {
        self.almost_eq(*other)
    }
}

impl vstd::std_specs::cmp::PartialEqSpecImpl for Rgb {
    open spec fn obeys_eq_spec() -> bool {
        true
    }

    open spec fn eq_spec(&self, other: &Rgb) -> bool {
        close_units(self.red.units as int, other.red.units as int) && close_units(
            self.green.units as int,
            other.green.units as int,
        ) && close_units(self.blue.units as int, other.blue.units as int)
    }
}

/// A stored channel byte survives the round trip: decoding it to a
/// fixed-point component and narrowing that component again gives
/// the same byte back, so colors read from the canvas re-encode to
/// the very bytes that are stored.
pub proof fn lemma_channel_byte_round_trip(b: int)
    requires
        0 <= b <= 255,
    ensures
        quantize_channel_units(channel_from_byte(b)) == b,
{
    let s = SCALE as int;
    let u = channel_from_byte(b);
    if b == 0 {
        assert(u == 0) by {
            assert(0 * s == 0) by (nonlinear_arith);
        }
    } else if b == 255 {
        assert(u == s) by {
            vstd::arithmetic::div_mod::lemma_div_by_multiple(s, 255);
            assert(255 * s == s * 255) by (nonlinear_arith);
        }
    } else {
        let rho = (b * s) % 255;
        vstd::arithmetic::div_mod::lemma_fundamental_div_mod(b * s, 255);
        vstd::arithmetic::div_mod::lemma_mod_division_less_than_divisor(b * s, 255);
        vstd::arithmetic::div_mod::lemma_div_pos_is_pos(b * s, 255);
        assert(b * s >= 0) by (nonlinear_arith)
            requires
                b >= 0,
                s >= 0;
        assert(u > 0) by (nonlinear_arith)
            requires
                b * s == 255 * u + rho,
                0 <= rho && rho < 255,
                1 <= b,
                s == 1_000_000;
        assert(u < s) by (nonlinear_arith)
            requires
                b * s == 255 * u + rho,
                0 <= rho && rho < 255,
                b <= 254,
                s == 1_000_000;
        assert(u * 255 + (HALF_SCALE as int) == s * b + ((HALF_SCALE as int) - rho))
            by (nonlinear_arith)
            requires
                b * s == 255 * u + rho;
        vstd::arithmetic::div_mod::lemma_div_multiples_vanish_fancy(
            b,
            (HALF_SCALE as int) - rho,
            s,
        );
    }
}

/// Narrows one channel to its stored byte.
fn channel_to_byte(c: Scalar) -> (r: u8)
    ensures
        r as int == quantize_channel_units(c.units as int),
{
    if c.units <= 0 {
        0
    } else if c.units >= SCALE {
        255
    } else {
        let clipped: u64 = c.units as u64;
        let scaled: u64 = (clipped * 255 + (HALF_SCALE as u64)) / (SCALE as u64);
        proof {
            assert(scaled <= 255) by (nonlinear_arith)
                requires
                    scaled as int == ((clipped as int) * 255 + (HALF_SCALE as int)) / (
                    SCALE as int),
                    0 <= clipped as int && (clipped as int) < SCALE as int;
        }
        scaled as u8
    }
}

/// Widens one stored byte back to its channel value.
fn byte_to_channel(b: u8) -> (r: Scalar)
    ensures
        r.units == channel_from_byte(b as int),
{
    let units: u64 = ((b as u64) * (SCALE as u64)) / 255;
    proof {
        assert(units <= SCALE) by (nonlinear_arith)
            requires
                units as int == ((b as int) * (SCALE as int)) / 255,
                0 <= b as int && b as int <= 255,
                SCALE == 1_000_000;
    }
    Scalar { units: units as i64 }
}

} // verus!
