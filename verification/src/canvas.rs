//! The canvas: exclusive owner of the framebuffer.
//!
//! It translates coordinates to buffer offsets, writes narrowed
//! colors, reads colors back, enumerates all pixels, and throttles
//! presentation to roughly sixty frames each second. Coordinates are
//! rounded to the nearest integer before mapping; out-of-range
//! coordinates are answered with an absent result, never with an
//! out-of-bounds access.

use vstd::prelude::*;

use crate::clock::{instant_now, micros_since};
use crate::point2::{pt2, Point2};
use crate::rgb::{channel_from_byte, quantize_channel_units, Rgb, HALF_SCALE};
use crate::scalar::{Scalar, SCALE};
use crate::size2::{size2, Size2};
use crate::surface::FrameSurface;

verus! {

/// Microseconds that must pass between two presentations: the
/// default target of sixty frames each second.
pub const FRAME_INTERVAL_MICROS: u64 = 16_667;

/// The units standing for the largest pixel coordinate, `u32::MAX`.
pub const MAX_PIXEL_UNITS: i64 = 4_294_967_295_000_000;

/// The largest pixel coordinate itself.
pub const MAX_PIXEL: u32 = 4_294_967_295;

/// A pixel coordinate rounded to the nearest integer: negative
/// coordinates collapse to zero and huge ones to the largest pixel,
/// mirroring the saturation of a float-to-integer cast.
pub open spec fn round_to_pixel(u: int) -> int {
    if u <= 0 {
        0
    } else if u >= MAX_PIXEL_UNITS {
        MAX_PIXEL as int
    } else {
        (u + HALF_SCALE) / (SCALE as int)
    }
}

/// The pixel at column `x` of row `y`, counted row-major.
pub open spec fn pixel_index(x: int, y: int, width: int) -> int {
    y * width + x
}

/// The frame `o` with the four bytes of one pixel replaced: byte
/// `start` and its three successors hold the new red, green, blue
/// and alpha, and every other byte is unchanged.
pub open spec fn frame_updated_with(
    o: Seq<u8>,
    f: Seq<u8>,
    start: int,
    r: int,
    g: int,
    b: int,
    a: int,
) -> bool {
    f.len() == o.len() && f[start] as int == r && f[start + 1] as int == g && f[start + 2] as int
        == b && f[start + 3] as int == a && (forall|j: int|
        0 <= j < o.len() && !(start <= j < start + 4) ==> f[j] == o[j])
}

/// One enumerated pixel: its coordinate and its stored color.
pub struct Pixel {
    pub xy: Point2,
    pub rgb: Rgb,
}

/// The canvas owns a frame surface of `width * height` pixels, four
/// bytes each, and throttles how often it is presented.
pub struct Canvas<S: FrameSurface> {
    pub pixels: S,
    pub width: u32,
    pub height: u32,
    pub last_render_at: std::time::Instant,
    pub max_micros_between_renders: u64,
}

impl<S: FrameSurface> Canvas<S> {
    /// The one canvas invariant: the buffer holds exactly four bytes
    /// for every pixel of the current extents.
    pub open spec fn wf(&self) -> bool {
        self.pixels.frame_view().len() == (self.width as int) * (self.height as int) * 4
            && (self.width as int) * (self.height as int) * 4 <= usize::MAX
    }

    /// The rounded coordinate falls inside the canvas.
    pub open spec fn coord_in_bounds(&self, xy: Point2) -> bool {
        round_to_pixel(xy.x.units as int) < self.width && round_to_pixel(xy.y.units as int)
            < self.height
    }

    /// The byte offset of the pixel the coordinate rounds to.
    pub open spec fn byte_index_of(&self, xy: Point2) -> int {
        4 * pixel_index(
            round_to_pixel(xy.x.units as int),
            round_to_pixel(xy.y.units as int),
            self.width as int,
        )
    }

    /// A canvas over the given surface. The surface must already
    /// hold four bytes per pixel of the given extents.
    pub fn new(width: u32, height: u32, pixels: S) -> (r: Canvas<S>)
        requires
            pixels.frame_view().len() == (width as int) * (height as int) * 4,
            (width as int) * (height as int) * 4 <= usize::MAX,
        ensures
            r.wf(),
            r.width == width,
            r.height == height,
            r.pixels == pixels,
            r.max_micros_between_renders == FRAME_INTERVAL_MICROS,
    {
        Canvas {
            width,
            height,
            pixels,
            last_render_at: instant_now(),
            max_micros_between_renders: FRAME_INTERVAL_MICROS,
        }
    }

    /// The byte offset of the first component of the pixel that the
    /// coordinate rounds to.
    pub fn frame_index(&self, xy: Point2) -> (r: usize)
        requires
            self.wf(),
            self.coord_in_bounds(xy),
        ensures
            r as int == self.byte_index_of(xy),
            r + 4 <= self.pixels.frame_view().len(),
    {
        let rx: u32 = round_coord(xy.x);
        let ry: u32 = round_coord(xy.y);
        proof {
            assert((ry as int) * (self.width as int) + (rx as int) + 1 <= (self.width as int) * (
            self.height as int)) by (nonlinear_arith)
                requires
                    (rx as int) < self.width as int,
                    (ry as int) < self.height as int;
        }
        ((ry as usize) * (self.width as usize) + (rx as usize)) * 4
    }

    /// The four stored bytes of the pixel the coordinate rounds to,
    /// or nothing when the coordinate lies outside the canvas.
    pub fn frame_slice(&self, xy: Point2) -> (r: Option<[u8; 4]>)
        requires
            self.wf(),
        ensures
            self.coord_in_bounds(xy) ==> (r matches Some(q) && q[0]
                == self.pixels.frame_view()[self.byte_index_of(xy)] && q[1]
                == self.pixels.frame_view()[self.byte_index_of(xy) + 1] && q[2]
                == self.pixels.frame_view()[self.byte_index_of(xy) + 2] && q[3]
                == self.pixels.frame_view()[self.byte_index_of(xy) + 3]),
            !self.coord_in_bounds(xy) ==> r is None,
    {
        let rx: u32 = round_coord(xy.x);
        let ry: u32 = round_coord(xy.y);
        if rx < self.width && ry < self.height {
            let start: usize = self.frame_index(xy);
            Some(self.pixels.read_quad(start))
        } else {
            None
        }
    }

    /// Stores four already-narrowed bytes at the pixel the coordinate
    /// rounds to, then presents the frame if enough time has passed.
    /// A coordinate outside the canvas leaves the frame untouched.
    pub fn update_frame(&mut self, xy: Point2, srgba: [u8; 4]) -> (r: Result<
        (),
        S::PresentError,
    >)
        requires
            old(self).wf(),
        ensures
            final(self).wf(),
            final(self).width == old(self).width,
            final(self).height == old(self).height,
            old(self).coord_in_bounds(xy) ==> frame_updated_with(
                old(self).pixels.frame_view(),
                final(self).pixels.frame_view(),
                old(self).byte_index_of(xy),
                srgba[0] as int,
                srgba[1] as int,
                srgba[2] as int,
                srgba[3] as int,
            ),
            !old(self).coord_in_bounds(xy) ==> final(self).pixels.frame_view() == old(self).pixels.frame_view(),
            !old(self).coord_in_bounds(xy) ==> r is Ok && final(self).last_render_at == old(self).last_render_at,
            final(self).max_micros_between_renders == old(self).max_micros_between_renders,
    {
        let rx: u32 = round_coord(xy.x);
        let ry: u32 = round_coord(xy.y);
        if rx < self.width && ry < self.height {
            let start: usize = self.frame_index(xy);
            self.pixels.write_quad(start, srgba);
            self.render_if_needed()
        } else {
            Ok(())
        }
    }

    /// Narrows the color to its stored bytes with full alpha and
    /// writes them at the pixel the coordinate rounds to; presents
    /// if enough time has passed.
    pub fn set_pixel_rgb(&mut self, xy: Point2, rgb: Rgb) -> (r: Result<(), S::PresentError>)
        requires
            old(self).wf(),
        ensures
            final(self).wf(),
            final(self).width == old(self).width,
            final(self).height == old(self).height,
            old(self).coord_in_bounds(xy) ==> frame_updated_with(
                old(self).pixels.frame_view(),
                final(self).pixels.frame_view(),
                old(self).byte_index_of(xy),
                quantize_channel_units(rgb.red.units as int),
                quantize_channel_units(rgb.green.units as int),
                quantize_channel_units(rgb.blue.units as int),
                255,
            ),
            !old(self).coord_in_bounds(xy) ==> final(self).pixels.frame_view() == old(self).pixels.frame_view(),
            !old(self).coord_in_bounds(xy) ==> r is Ok && final(self).last_render_at == old(self).last_render_at,
            final(self).max_micros_between_renders == old(self).max_micros_between_renders,
    {
        let bytes: [u8; 4] = rgb.to_srgba_bytes(Scalar::one());
        self.update_frame(xy, bytes)
    }

    /// The stored color of the pixel the coordinate rounds to, or
    /// nothing when the coordinate lies outside the canvas.
    pub fn rgb_at(&self, xy: Point2) -> (r: Option<Rgb>)
        requires
            self.wf(),
        ensures
            self.coord_in_bounds(xy) ==> (r matches Some(c) && c.red.units == channel_from_byte(
                self.pixels.frame_view()[self.byte_index_of(xy)] as int,
            ) && c.green.units == channel_from_byte(
                self.pixels.frame_view()[self.byte_index_of(xy) + 1] as int,
            ) && c.blue.units == channel_from_byte(
                self.pixels.frame_view()[self.byte_index_of(xy) + 2] as int,
            )),
            !self.coord_in_bounds(xy) ==> r is None,
    {
        match self.frame_slice(xy) {
            Some(components) => Some(Rgb::from_bytes(&components)),
            None => None,
        }
    }

    /// Presents the frame if more than the configured interval has
    /// passed since the last presentation; the buffer itself is
    /// untouched whatever the clock or the surface answer.
    pub fn render_if_needed(&mut self) -> (r: Result<(), S::PresentError>)
        requires
            old(self).wf(),
        ensures
            final(self).wf(),
            final(self).pixels.frame_view() == old(self).pixels.frame_view(),
            final(self).width == old(self).width,
            final(self).height == old(self).height,
            final(self).max_micros_between_renders == old(self).max_micros_between_renders,
    {
        let elapsed: u64 = micros_since(&self.last_render_at);
        if elapsed > self.max_micros_between_renders {
            match self.pixels.render() {
                Ok(_) => {
                    self.last_render_at = instant_now();
                    Ok(())
                },
                Err(e) => Err(e),
            }
        } else {
            Ok(())
        }
    }

    /// Replaces the extents and hands the surface a resize request;
    /// on success the whole buffer is reallocated zero-filled, with
    /// no partial state observable on failure.
    pub fn resize_surface(&mut self, width: u32, height: u32) -> (r: Result<
        (),
        S::PresentError,
    >)
        requires
            old(self).wf(),
            (width as int) * (height as int) * 4 <= usize::MAX,
        ensures
            final(self).wf(),
            final(self).max_micros_between_renders == old(self).max_micros_between_renders,
            final(self).last_render_at == old(self).last_render_at,
            r is Ok ==> final(self).width == width && final(self).height == height && final(self).pixels.frame_view() == Seq::new(
                ((width as nat) * (height as nat) * 4) as nat,
                |i: int| 0u8,
            ),
            r is Err ==> final(self).width == old(self).width && final(self).height == old(self).height && final(self).pixels.frame_view() == old(self).pixels.frame_view(),
    {
        match self.pixels.resize(width, height) {
            Ok(_) => {
                self.width = width;
                self.height = height;
                Ok(())
            },
            Err(e) => Err(e),
        }
    }

    /// Every integer pixel coordinate of the canvas, column by
    /// column: all rows of the first column, then of the next.
    pub fn iter_points(&self) -> (r: Vec<Point2>)
        requires
            self.wf(),
        ensures
            r@.len() == (self.width as int) * (self.height as int),
            forall|i: int|
                0 <= i < r@.len() ==> (#[trigger] r@[i]).x.units == (i / (self.height as int)) * (
                SCALE as int) && r@[i].y.units == (i % (self.height as int)) * (SCALE as int),
    {
        proof {
            assert((self.width as int) * (self.height as int) >= 0) by (nonlinear_arith);
            assert((self.width as int) * (self.height as int) > 0 ==> self.height as int > 0)
                by (nonlinear_arith);
            assert((self.width as int) * (self.height as int) > 0 ==> self.width as int > 0)
                by (nonlinear_arith);
            vstd::arithmetic::mul::lemma_mul_is_commutative(
                self.width as int,
                self.height as int,
            );
        }
        let total: usize = (self.width as usize) * (self.height as usize);
        let h: usize = self.height as usize;
        let mut points: Vec<Point2> = Vec::new();
        let mut i: usize = 0;
        while i < total
            invariant
                i <= total,
                total == (self.width as int) * (self.height as int),
                h == self.height as int,
                total > 0 ==> h > 0,
                total <= (h as int) * (self.width as int),
                points@.len() == i,
                forall|k: int|
                    0 <= k < i ==> (#[trigger] points@[k]).x.units == (k / (h as int)) * (
                    SCALE as int) && points@[k].y.units == (k % (h as int)) * (SCALE as int),
            decreases total - i,
        {
            proof {
                vstd::arithmetic::div_mod::lemma_multiply_divide_lt(
                    i as int,
                    h as int,
                    self.width as int,
                );
                vstd::arithmetic::div_mod::lemma_mod_division_less_than_divisor(i as int, h as int);
                assert((i as int / (h as int)) * (SCALE as int) <= MAX_PIXEL_UNITS)
                    by (nonlinear_arith)
                    requires
                        0 <= i as int / (h as int) && i as int / (h as int) < self.width as int,
                        self.width as int <= MAX_PIXEL as int,
                        MAX_PIXEL_UNITS == (MAX_PIXEL as int) * (SCALE as int);
                assert((i as int % (h as int)) * (SCALE as int) <= MAX_PIXEL_UNITS)
                    by (nonlinear_arith)
                    requires
                        0 <= i as int % (h as int) && i as int % (h as int) < h as int,
                        h as int <= MAX_PIXEL as int,
                        MAX_PIXEL_UNITS == (MAX_PIXEL as int) * (SCALE as int);
            }
            let x: Scalar = Scalar::from_int((i / h) as i64);
            let y: Scalar = Scalar::from_int((i % h) as i64);
            points.push(pt2(x, y));
            i = i + 1;
        }
        points
    }

    /// Every pixel of the canvas with its stored color, in buffer
    /// order: the flat index walks the rows.
    pub fn iter_pixels(&self) -> (r: Vec<Pixel>)
        requires
            self.wf(),
        ensures
            r@.len() == (self.width as int) * (self.height as int),
            forall|i: int|
                0 <= i < r@.len() ==> {
                    let p = #[trigger] r@[i];
                    p.xy.x.units == (i % (self.width as int)) * (SCALE as int) && p.xy.y.units == (
                    i / (self.width as int)) * (SCALE as int) && p.rgb.red.units
                        == channel_from_byte(self.pixels.frame_view()[4 * i] as int)
                        && p.rgb.green.units == channel_from_byte(
                        self.pixels.frame_view()[4 * i + 1] as int,
                    ) && p.rgb.blue.units == channel_from_byte(
                        self.pixels.frame_view()[4 * i + 2] as int,
                    )
                },
    {
        proof {
            assert((self.width as int) * (self.height as int) >= 0) by (nonlinear_arith);
            assert((self.width as int) * (self.height as int) > 0 ==> self.width as int > 0)
                by (nonlinear_arith);
        }
        let total: usize = (self.width as usize) * (self.height as usize);
        let w: usize = self.width as usize;
        let mut out: Vec<Pixel> = Vec::new();
        let mut i: usize = 0;
        while i < total
            invariant
                i <= total,
                total == (self.width as int) * (self.height as int),
                w == self.width as int,
                total > 0 ==> w > 0,
                self.wf(),
                out@.len() == i,
                forall|k: int|
                    0 <= k < i ==> {
                        let p = #[trigger] out@[k];
                        p.xy.x.units == (k % (w as int)) * (SCALE as int) && p.xy.y.units == (k / (
                        w as int)) * (SCALE as int) && p.rgb.red.units == channel_from_byte(
                            self.pixels.frame_view()[4 * k] as int,
                        ) && p.rgb.green.units == channel_from_byte(
                            self.pixels.frame_view()[4 * k + 1] as int,
                        ) && p.rgb.blue.units == channel_from_byte(
                            self.pixels.frame_view()[4 * k + 2] as int,
                        )
                    },
            decreases total - i,
        {
            proof {
                assert(4 * (i as int) + 4 <= (self.width as int) * (self.height as int) * 4)
                    by (nonlinear_arith)
                    requires
                        (i as int) < (self.width as int) * (self.height as int),
                        0 <= i;
                vstd::arithmetic::div_mod::lemma_multiply_divide_lt(
                    i as int,
                    w as int,
                    self.height as int,
                );
                vstd::arithmetic::div_mod::lemma_mod_division_less_than_divisor(i as int, w as int);
                assert((i as int % (w as int)) * (SCALE as int) <= MAX_PIXEL_UNITS
                    && (i as int / (w as int)) * (SCALE as int) <= MAX_PIXEL_UNITS)
                    by (nonlinear_arith)
                    requires
                        0 <= i as int % (w as int) && i as int % (w as int) < w as int,
                        0 <= i as int / (w as int) && i as int / (w as int) < self.height as int,
                        w as int <= MAX_PIXEL as int,
                        self.height as int <= MAX_PIXEL as int,
                        MAX_PIXEL_UNITS == (MAX_PIXEL as int) * (SCALE as int);
            }
            let quad: [u8; 4] = self.pixels.read_quad(4 * i);
            let x: Scalar = Scalar::from_int((i % w) as i64);
            let y: Scalar = Scalar::from_int((i / w) as i64);
            out.push(Pixel { xy: pt2(x, y), rgb: Rgb::from_bytes(&quad) });
            i = i + 1;
        }
        out
    }

    /// The coordinate of the pixel with the given flat index, the
    /// exact inverse of the byte-offset computation.
    pub fn xy_from_frame_index(&self, index: usize) -> (r: Point2)
        requires
            self.width > 0,
            index < (self.width as int) * (self.height as int),
        ensures
            r.x.units == ((index as int) % (self.width as int)) * (SCALE as int),
            r.y.units == ((index as int) / (self.width as int)) * (SCALE as int),
    {
        let w: usize = self.width as usize;
        proof {
            vstd::arithmetic::div_mod::lemma_multiply_divide_lt(
                index as int,
                w as int,
                self.height as int,
            );
            vstd::arithmetic::div_mod::lemma_mod_division_less_than_divisor(
                index as int,
                w as int,
            );
            assert((index as int % (w as int)) * (SCALE as int) <= MAX_PIXEL_UNITS && (index as int
                / (w as int)) * (SCALE as int) <= MAX_PIXEL_UNITS) by (nonlinear_arith)
                requires
                    0 <= index as int % (w as int) && index as int % (w as int) < w as int,
                    0 <= index as int / (w as int) && index as int / (w as int) < self.height as int,
                    w as int <= MAX_PIXEL as int,
                    self.height as int <= MAX_PIXEL as int,
                    MAX_PIXEL_UNITS == (MAX_PIXEL as int) * (SCALE as int);
        }
        let x: Scalar = Scalar::from_int((index % w) as i64);
        let y: Scalar = Scalar::from_int((index / w) as i64);
        pt2(x, y)
    }

    /// The extents of the canvas as a size.
    pub fn size(&self) -> (r: Size2)
        ensures
            r.width.units == (self.width as int) * (SCALE as int),
            r.height.units == (self.height as int) * (SCALE as int),
    {
        proof {
            assert((self.width as int) * (SCALE as int) <= MAX_PIXEL_UNITS && (self.height as int)
                * (SCALE as int) <= MAX_PIXEL_UNITS) by (nonlinear_arith)
                requires
                    self.width as int <= MAX_PIXEL as int,
                    self.height as int <= MAX_PIXEL as int,
                    MAX_PIXEL_UNITS == (MAX_PIXEL as int) * (SCALE as int);
        }
        size2(Scalar::from_int(self.width as i64), Scalar::from_int(self.height as i64))
    }
}

/// Rounds a fixed-point coordinate to the nearest pixel, saturating
/// at the edges of the pixel range.
pub fn round_coord(s: Scalar) -> (r: u32)
    ensures
        r as int == round_to_pixel(s.units as int),
{
    if s.units <= 0 {
        0
    } else if s.units >= MAX_PIXEL_UNITS {
        MAX_PIXEL
    } else {
        proof {
            vstd::arithmetic::div_mod::lemma_div_is_ordered(
                s.units + HALF_SCALE,
                MAX_PIXEL_UNITS + (SCALE as int) - 1,
                SCALE as int,
            );
            vstd::arithmetic::div_mod::lemma_div_pos_is_pos(
                s.units + HALF_SCALE,
                SCALE as int,
            );
        }
        (((s.units + HALF_SCALE) as u64) / (SCALE as u64)) as u32
    }
}

/// Converting a flat pixel index to its coordinate and mapping the
/// coordinate back to an index reproduces the index exactly, for
/// every valid index of the buffer.
pub proof fn lemma_pixel_index_round_trip(i: int, width: int, height: int)
    requires
        0 < width,
        0 <= i < width * height,
    ensures
        0 <= i % width < width,
        0 <= i / width < height,
        pixel_index(i % width, i / width, width) == i,
{
    vstd::arithmetic::div_mod::lemma_fundamental_div_mod(i, width);
    vstd::arithmetic::div_mod::lemma_mod_division_less_than_divisor(i, width);
    vstd::arithmetic::div_mod::lemma_multiply_divide_lt(i, width, height);
    vstd::arithmetic::mul::lemma_mul_is_commutative(width, i / width);
}

/// Rounding maps a whole-pixel coordinate back to exactly that
/// pixel: the coordinates that the enumeration produces land on
/// their own cell.
pub proof fn lemma_round_exact_pixel(x: int)
    requires
        0 <= x <= MAX_PIXEL as int,
    ensures
        round_to_pixel(x * (SCALE as int)) == x,
{
    if x == 0 {
    } else if x * (SCALE as int) >= MAX_PIXEL_UNITS {
        assert(x == MAX_PIXEL as int) by (nonlinear_arith)
            requires
                0 <= x <= MAX_PIXEL as int,
                x * (SCALE as int) >= MAX_PIXEL_UNITS,
                MAX_PIXEL_UNITS == (MAX_PIXEL as int) * (SCALE as int);
    } else {
        assert(x * (SCALE as int) + (HALF_SCALE as int) == (SCALE as int) * x + (
        HALF_SCALE as int)) by (nonlinear_arith);
        vstd::arithmetic::div_mod::lemma_div_multiples_vanish_fancy(
            x,
            HALF_SCALE as int,
            SCALE as int,
        );
        assert(x * (SCALE as int) > 0) by (nonlinear_arith)
            requires
                x > 0,
                SCALE == 1_000_000;
    }
}

/// The full round trip of the canvas mapping: take any valid flat
/// pixel index, read off its coordinate, and the byte offset of that
/// coordinate is four times the index again.
pub proof fn lemma_frame_index_round_trip(i: int, width: int, height: int)
    requires
        0 < width <= MAX_PIXEL as int,
        height <= MAX_PIXEL as int,
        0 <= i < width * height,
    ensures
        4 * pixel_index(
            round_to_pixel(((i % width) * (SCALE as int))),
            round_to_pixel(((i / width) * (SCALE as int))),
            width,
        ) == 4 * i,
{
    lemma_pixel_index_round_trip(i, width, height);
    lemma_round_exact_pixel(i % width);
    lemma_round_exact_pixel(i / width);
}

} // verus!
