//! The perceptual color model: lightness, chroma, hue and alpha,
//! each normalized to the unit interval, mapped deterministically
//! onto the ranges the underlying perceptual space expects before
//! any conversion to stored RGBA takes place.

use vstd::prelude::*;

use crate::scalar::{mul_units, Scalar, SCALE};
use crate::scalar::lemma_mul_units_bound;

verus! {

/// The practical upper bound of the chroma axis, three halves: the
/// axis is technically unbounded, but this captures the usable gamut.
pub const CHROMA_RANGE_UNITS: i64 = 1_500_000;

/// A full turn of the hue circle, in degrees.
pub const HUE_RANGE_UNITS: i64 = 360_000_000;

/// All four channels lie in the unit interval.
pub open spec fn perceptual_wf(c: PerceptualColor) -> bool {
    0 <= c.lightness.units <= SCALE && 0 <= c.chroma.units <= SCALE && 0 <= c.hue.units <= SCALE
        && 0 <= c.alpha.units <= SCALE
}

/// A perceptual color: four normalized channels. The chroma and hue
/// stay normalized here; the scaled readings map them to their
/// working ranges.
#[derive(Clone, Copy, Debug)]
pub struct PerceptualColor {
    pub lightness: Scalar,
    pub chroma: Scalar,
    pub hue: Scalar,
    pub alpha: Scalar,
}

impl PerceptualColor {
    /// The chroma mapped to its working range: the normalized value
    /// scaled by three halves.
    pub fn scaled_chroma(&self) -> (r: Scalar)
        requires
            perceptual_wf(*self),
        ensures
            r.units == mul_units(self.chroma.units as int, CHROMA_RANGE_UNITS as int),
            0 <= r.units <= CHROMA_RANGE_UNITS,
    {
        proof {
            lemma_mul_units_bound(
                self.chroma.units as int,
                CHROMA_RANGE_UNITS as int,
                SCALE as int,
                CHROMA_RANGE_UNITS as int,
            );
        }
        self.chroma.mul(Scalar::from_units(CHROMA_RANGE_UNITS))
    }

    /// The hue mapped to degrees: the normalized turn scaled by a
    /// full circle of three hundred sixty degrees.
    pub fn hue_degrees(&self) -> (r: Scalar)
        requires
            perceptual_wf(*self),
        ensures
            r.units == mul_units(self.hue.units as int, HUE_RANGE_UNITS as int),
            0 <= r.units <= HUE_RANGE_UNITS,
    {
        proof {
            lemma_mul_units_bound(
                self.hue.units as int,
                HUE_RANGE_UNITS as int,
                SCALE as int,
                HUE_RANGE_UNITS as int,
            );
        }
        self.hue.mul(Scalar::from_units(HUE_RANGE_UNITS))
    }
}

/// A perceptual color from its four normalized channels; each must
/// lie in the unit interval, the model's whole domain.
pub fn oklcha(
    normalized_lightness: Scalar,
    normalized_chroma: Scalar,
    normalized_hue: Scalar,
    normalized_alpha: Scalar,
) -> (r: PerceptualColor)
    requires
        0 <= normalized_lightness.units <= SCALE,
        0 <= normalized_chroma.units <= SCALE,
        0 <= normalized_hue.units <= SCALE,
        0 <= normalized_alpha.units <= SCALE,
    ensures
        r.lightness == normalized_lightness,
        r.chroma == normalized_chroma,
        r.hue == normalized_hue,
        r.alpha == normalized_alpha,
        perceptual_wf(r),
{
    PerceptualColor {
        lightness: normalized_lightness,
        chroma: normalized_chroma,
        hue: normalized_hue,
        alpha: normalized_alpha,
    }
}

} // verus!
