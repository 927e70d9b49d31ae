use sketchpad::rgb::Rgb;
use sketchpad::scalar::Scalar;
use sketchpad::size2::{size2, Size2};

#[test]
fn test_rgb() {
    let rgb = Rgb::new(
        Scalar::from_units(-500_000),
        Scalar::from_units(400_000),
        Scalar::from_units(1_700_000),
    );
    assert_eq!(rgb.red().units, -500_000);
    assert_eq!(rgb.green().units, 400_000);
    assert_eq!(rgb.blue().units, 1_700_000);
}

#[test]
fn adding_colors() {
    let a = Rgb::new(
        Scalar::from_units(900_000),
        Scalar::from_units(600_000),
        Scalar::from_units(750_000),
    );
    let b = Rgb::new(
        Scalar::from_units(700_000),
        Scalar::from_units(100_000),
        Scalar::from_units(250_000),
    );
    let actual = a.add(b);
    assert!(actual.red().almost_eq(Scalar::from_units(1_600_000)));
    assert!(actual.green().almost_eq(Scalar::from_units(700_000)));
    assert!(actual.blue().almost_eq(Scalar::from_units(1_000_000)));
}

#[test]
fn subtracting_colors() {
    let a = Rgb::new(
        Scalar::from_units(900_000),
        Scalar::from_units(600_000),
        Scalar::from_units(750_000),
    );
    let b = Rgb::new(
        Scalar::from_units(700_000),
        Scalar::from_units(100_000),
        Scalar::from_units(250_000),
    );
    let actual = a.sub(b);
    assert!(actual.red().almost_eq(Scalar::from_units(200_000)));
    assert!(actual.green().almost_eq(Scalar::from_units(500_000)));
    assert!(actual.blue().almost_eq(Scalar::from_units(500_000)));
}

#[test]
fn multiplying_color_by_scalar() {
    let a = Rgb::new(
        Scalar::from_units(200_000),
        Scalar::from_units(300_000),
        Scalar::from_units(400_000),
    );
    let actual = a.mul(Scalar::from_int(2));
    assert!(actual.red().almost_eq(Scalar::from_units(400_000)));
    assert!(actual.green().almost_eq(Scalar::from_units(600_000)));
    assert!(actual.blue().almost_eq(Scalar::from_units(800_000)));
}

#[test]
fn multiplying_color_by_color() {
    let c1 = Rgb::new(
        Scalar::one(),
        Scalar::from_units(200_000),
        Scalar::from_units(400_000),
    );
    let c2 = Rgb::new(
        Scalar::from_units(900_000),
        Scalar::one(),
        Scalar::from_units(100_000),
    );
    let actual = c1.mul_rgb(c2);
    let expected = Rgb::new(
        Scalar::from_units(900_000),
        Scalar::from_units(200_000),
        Scalar::from_units(40_000),
    );
    assert_eq!(actual, expected);
}

#[test]
// Scaling a color is componentwise: each channel of the result is
// exactly that channel times the scalar.
fn scalar_multiply_is_componentwise() {
    let c = Rgb::new(
        Scalar::from_units(123_456),
        Scalar::from_units(-777_777),
        Scalar::from_units(999_999),
    );
    let s = Scalar::from_units(1_250_000);
    let scaled = c.mul(s);
    assert_eq!(scaled.red().units, c.red().mul(s).units);
    assert_eq!(scaled.green().units, c.green().mul(s).units);
    assert_eq!(scaled.blue().units, c.blue().mul(s).units);
}

#[test]
fn quantization_clamps_and_rounds() {
    let c = Rgb::new(
        Scalar::from_units(1_700_000),
        Scalar::from_units(-500_000),
        Scalar::from_units(600_000),
    );
    let bytes = c.to_srgba_bytes(Scalar::one());
    assert_eq!(bytes, [255, 0, 153, 255]);
}

#[test]
fn byte_round_trip_is_exact() {
    let bytes: [u8; 4] = [17, 204, 99, 255];
    let c = Rgb::from_bytes(&bytes);
    let back = c.to_srgba_bytes(Scalar::one());
    assert_eq!(back[0], 17);
    assert_eq!(back[1], 204);
    assert_eq!(back[2], 99);
}

#[test]
fn black_is_all_zero() {
    let black = Rgb::black();
    assert_eq!(black.components().map(|c| c.units), [0, 0, 0]);
}

#[test]
fn width_and_height() {
    let size2 = Size2::new(Scalar::one(), Scalar::from_int(2));
    assert_eq!(size2.width().units, 1_000_000);
    assert_eq!(size2.height().units, 2_000_000);
}

#[test]
fn size2_helper_builds_a_size() {
    let s = size2(Scalar::from_int(3), Scalar::from_int(4));
    assert_eq!(s.width().units, 3_000_000);
    assert_eq!(s.height().units, 4_000_000);
}
