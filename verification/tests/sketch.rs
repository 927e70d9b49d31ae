use sketchpad::canvas::Canvas;
use sketchpad::color::oklcha;
use sketchpad::point2::pt2;
use sketchpad::scalar::Scalar;
use sketchpad::sketch::Sketch;
use sketchpad::surface::TestPixels;

#[test]
fn sketch_draws_the_projectile_path() {
    let pixels = TestPixels::new(100, 100);
    let mut canvas = Canvas::new(100, 100, pixels);
    let sketch = Sketch::new();
    sketch.draw(&mut canvas).unwrap();

    // After the first step the projectile sits at (1, 4), plotted at
    // (1, 96) once the vertical axis is flipped.
    let painted = canvas
        .rgb_at(pt2(Scalar::from_int(1), Scalar::from_int(96)))
        .expect("Pixel not found.");
    assert_eq!(painted.red().units, 0);
    assert_eq!(painted.green().units, 600_000);
    assert_eq!(painted.blue().units, 800_000);

    // A corner the projectile never visits stays black.
    let untouched = canvas
        .rgb_at(pt2(Scalar::from_int(99), Scalar::from_int(0)))
        .expect("Pixel not found.");
    assert_eq!(untouched.red().units, 0);
    assert_eq!(untouched.green().units, 0);
    assert_eq!(untouched.blue().units, 0);
}

#[test]
fn oklcha_scales_chroma_and_hue() {
    let color = oklcha(
        Scalar::from_units(500_000),
        Scalar::one(),
        Scalar::from_units(500_000),
        Scalar::one(),
    );
    assert_eq!(color.scaled_chroma().units, 1_500_000);
    assert_eq!(color.hue_degrees().units, 180_000_000);
    assert_eq!(color.lightness.units, 500_000);
    assert_eq!(color.alpha.units, 1_000_000);
}

#[test]
fn oklcha_endpoints_cover_the_working_ranges() {
    let zero = oklcha(Scalar::zero(), Scalar::zero(), Scalar::zero(), Scalar::zero());
    assert_eq!(zero.scaled_chroma().units, 0);
    assert_eq!(zero.hue_degrees().units, 0);

    let one = oklcha(Scalar::one(), Scalar::one(), Scalar::one(), Scalar::one());
    assert_eq!(one.scaled_chroma().units, 1_500_000);
    assert_eq!(one.hue_degrees().units, 360_000_000);
}
