//! The sketch: per-frame draw logic run by the window shell. Each
//! redraw request hands the sketch a mutable canvas to paint into.

use vstd::prelude::*;

use crate::canvas::Canvas;
use crate::projectiles::simulate_projectiles;
use crate::surface::FrameSurface;

verus! {

/// The demo sketch; it carries no state of its own.
pub struct Sketch {}

impl Sketch {
    /// A fresh sketch.
    pub fn new() -> Sketch {
        Sketch {}
    }

    /// Draws one frame: runs the projectile simulation against the
    /// canvas. A presentation failure is handed back to the caller,
    /// which treats it as fatal.
    pub fn draw<S: FrameSurface>(&self, canvas: &mut Canvas<S>) -> (r: Result<
        (),
        S::PresentError,
    >)
        requires
            old(canvas).wf(),
        ensures
            final(canvas).wf(),
            final(canvas).width == old(canvas).width,
            final(canvas).height == old(canvas).height,
            final(canvas).max_micros_between_renders == old(canvas).max_micros_between_renders,
    {
        simulate_projectiles(canvas)
    }
}

} // verus!
