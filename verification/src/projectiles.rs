//! A toy projectile simulation that draws into the canvas: a point
//! under gravity and wind, plotted until it leaves the visible area.
//! The simulation clamps its state at the representable range and
//! runs for at most a fixed number of steps, so every run ends.

use vstd::prelude::*;

use crate::canvas::{Canvas, MAX_PIXEL, MAX_PIXEL_UNITS};
use crate::point2::{pt2, Point2};
use crate::rgb::Rgb;
use crate::scalar::{lemma_mul_units_bound, saturating_add_units, Scalar, SCALE};
use crate::surface::FrameSurface;
use crate::vec2::{vec2, Vec2};

verus! {

/// Upper bound on simulation steps; the projectile leaves a real
/// canvas after a few hundred.
pub const MAX_SIM_STEPS: u32 = 1_000_000;

/// A projectile: where it is and where it is going.
pub struct Projectile {
    pub position: Point2,
    pub velocity: Vec2,
}

/// The constant influences acting on a projectile each step.
pub struct Environment {
    pub gravity: Vec2,
    pub wind: Vec2,
}

impl Projectile {
    /// One simulation step: the position advances by the velocity,
    /// and the velocity picks up gravity and wind. Sums clamp at the
    /// representable range, so a step is defined for every state.
    pub fn update(&mut self, environment: &Environment)
        ensures
            final(self).position.x.units == saturating_add_units(
                old(self).position.x.units as int,
                old(self).velocity.x.units as int,
            ),
            final(self).position.y.units == saturating_add_units(
                old(self).position.y.units as int,
                old(self).velocity.y.units as int,
            ),
            final(self).velocity.x.units == saturating_add_units(
                saturating_add_units(
                    old(self).velocity.x.units as int,
                    environment.gravity.x.units as int,
                ),
                environment.wind.x.units as int,
            ),
            final(self).velocity.y.units == saturating_add_units(
                saturating_add_units(
                    old(self).velocity.y.units as int,
                    environment.gravity.y.units as int,
                ),
                environment.wind.y.units as int,
            ),
    {
        self.position = Point2 {
            x: self.position.x.saturating_add(self.velocity.x),
            y: self.position.y.saturating_add(self.velocity.y),
        };
        self.velocity = Vec2 {
            x: self.velocity.x.saturating_add(environment.gravity.x).saturating_add(
                environment.wind.x,
            ),
            y: self.velocity.y.saturating_add(environment.gravity.y).saturating_add(
                environment.wind.y,
            ),
        };
    }
}

/// Launches one projectile over the canvas and plots its path until
/// it leaves the visible area, presenting as the throttle allows. A
/// presentation failure ends the run at once.
pub fn simulate_projectiles<S: FrameSurface>(canvas: &mut Canvas<S>) -> (r: Result<
    (),
    S::PresentError,
>)
    requires
        old(canvas).wf(),
    ensures
        final(canvas).wf(),
        final(canvas).width == old(canvas).width,
        final(canvas).height == old(canvas).height,
        final(canvas).max_micros_between_renders == old(canvas).max_micros_between_renders,
{
    let size = canvas.size();
    proof {
        assert(0 <= size.width.units <= MAX_PIXEL_UNITS && 0 <= size.height.units
            <= MAX_PIXEL_UNITS) by (nonlinear_arith)
            requires
                size.width.units == (canvas.width as int) * (SCALE as int),
                size.height.units == (canvas.height as int) * (SCALE as int),
                0 <= canvas.width as int <= MAX_PIXEL as int,
                0 <= canvas.height as int <= MAX_PIXEL as int,
                MAX_PIXEL_UNITS == (MAX_PIXEL as int) * (SCALE as int);
        lemma_mul_units_bound(-500, size.width.units as int, 500, MAX_PIXEL_UNITS as int);
        lemma_mul_units_bound(-500, size.height.units as int, 500, MAX_PIXEL_UNITS as int);
        lemma_mul_units_bound(-100, size.width.units as int, 100, MAX_PIXEL_UNITS as int);
        lemma_mul_units_bound(10_000, size.height.units as int, 10_000, MAX_PIXEL_UNITS as int);
        lemma_mul_units_bound(10_000, size.width.units as int, 10_000, MAX_PIXEL_UNITS as int);
        lemma_mul_units_bound(30_000, size.height.units as int, 30_000, MAX_PIXEL_UNITS as int);
        lemma_mul_units_bound(0, size.width.units as int, 0, MAX_PIXEL_UNITS as int);
        lemma_mul_units_bound(0, size.height.units as int, 0, MAX_PIXEL_UNITS as int);
    }
    let environment = Environment {
        gravity: vec2(Scalar::zero(), Scalar::from_units(-500)).wh(&size),
        wind: vec2(Scalar::from_units(-100), Scalar::zero()).wh(&size),
    };

    let mut projectile = Projectile {
        position: pt2(Scalar::zero(), Scalar::from_units(10_000)).wh(&size),
        velocity: vec2(Scalar::from_units(10_000), Scalar::from_units(30_000)).wh(&size),
    };

    let color = Rgb::new(
        Scalar::zero(),
        Scalar::from_units(600_000),
        Scalar::from_units(800_000),
    );

    let mut steps_left: u32 = MAX_SIM_STEPS;
    while steps_left > 0
        invariant
            canvas.wf(),
            canvas.width == old(canvas).width,
            canvas.height == old(canvas).height,
            canvas.max_micros_between_renders == old(canvas).max_micros_between_renders,
            size.height.units == (canvas.height as int) * (SCALE as int),
            size.width.units == (canvas.width as int) * (SCALE as int),
            0 <= size.height.units <= MAX_PIXEL_UNITS,
            0 <= size.width.units <= MAX_PIXEL_UNITS,
        decreases steps_left,
    {
        steps_left = steps_left - 1;
        projectile.update(&environment);

        let past_right: bool = projectile.position.x.units >= size.width.units;
        let below_ground: bool = projectile.position.y.units <= 0;
        let above_top: bool = projectile.position.y.units > size.height.units;
        if past_right || below_ground || above_top {
            break;
        }

        let position = projectile.position.flip_y(size.height);
        match canvas.set_pixel_rgb(position, color) {
            Ok(_) => {},
            Err(e) => {
                return Err(e);
            },
        }
    }
    Ok(())
}

} // verus!
