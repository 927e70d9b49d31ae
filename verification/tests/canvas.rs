use sketchpad::canvas::Canvas;
use sketchpad::point2::pt2;
use sketchpad::rgb::Rgb;
use sketchpad::scalar::Scalar;
use sketchpad::surface::TestPixels;

#[test]
fn colors_default_to_black() {
    let width = 10;
    let height = 20;
    let pixels = TestPixels::new(width, height);
    let canvas = Canvas::new(width, height, pixels);
    let black = Rgb::black();
    for pixel in canvas.iter_pixels() {
        assert_eq!(pixel.rgb, black);
    }
    assert_eq!(canvas.pixels.width, 10);
    assert_eq!(canvas.pixels.height, 20);
}

#[test]
fn set_pixel_rgb() {
    let width = 10;
    let height = 20;
    let pixels = TestPixels::new(width, height);
    let mut canvas = Canvas::new(width, height, pixels);

    let red = Rgb::new(Scalar::one(), Scalar::zero(), Scalar::zero());
    let xy = pt2(Scalar::from_int(2), Scalar::from_int(3));
    canvas.set_pixel_rgb(xy, red).unwrap();

    let rgb = canvas.rgb_at(xy).expect("Pixel not found.");
    assert_eq!(rgb, red);
}

#[test]
fn untouched_pixels_stay_black() {
    let pixels = TestPixels::new(10, 20);
    let mut canvas = Canvas::new(10, 20, pixels);

    let red = Rgb::new(Scalar::one(), Scalar::zero(), Scalar::zero());
    let xy = pt2(Scalar::from_int(2), Scalar::from_int(3));
    canvas.set_pixel_rgb(xy, red).unwrap();

    let black = Rgb::black();
    for pixel in canvas.iter_pixels() {
        if pixel.xy.x.units == 2_000_000 && pixel.xy.y.units == 3_000_000 {
            assert_eq!(pixel.rgb, red);
        } else {
            assert_eq!(pixel.rgb, black);
        }
    }
}

#[test]
fn coordinates_are_rounded_to_the_nearest_pixel() {
    let pixels = TestPixels::new(10, 20);
    let mut canvas = Canvas::new(10, 20, pixels);

    let red = Rgb::new(Scalar::one(), Scalar::zero(), Scalar::zero());
    // (1.6, 2.4) rounds to pixel (2, 2).
    let xy = pt2(Scalar::from_units(1_600_000), Scalar::from_units(2_400_000));
    canvas.set_pixel_rgb(xy, red).unwrap();

    let probe = pt2(Scalar::from_int(2), Scalar::from_int(2));
    let rgb = canvas.rgb_at(probe).expect("Pixel not found.");
    assert_eq!(rgb, red);
}

#[test]
fn rgb_at_out_of_range_is_none() {
    let pixels = TestPixels::new(10, 20);
    let canvas = Canvas::new(10, 20, pixels);
    assert!(canvas.rgb_at(pt2(Scalar::from_int(10), Scalar::from_int(0))).is_none());
    assert!(canvas.rgb_at(pt2(Scalar::from_int(0), Scalar::from_int(20))).is_none());
    assert!(canvas.rgb_at(pt2(Scalar::from_int(3), Scalar::from_int(5))).is_some());
    // Negative coordinates round up to pixel zero, which exists.
    assert!(canvas.rgb_at(pt2(Scalar::from_int(-1), Scalar::from_int(0))).is_some());
}

#[test]
fn resizing_reallocates_a_zeroed_buffer() {
    let pixels = TestPixels::new(10, 20);
    let mut canvas = Canvas::new(10, 20, pixels);

    let red = Rgb::new(Scalar::one(), Scalar::zero(), Scalar::zero());
    canvas.set_pixel_rgb(pt2(Scalar::from_int(2), Scalar::from_int(3)), red).unwrap();

    canvas.resize_surface(5, 5).unwrap();
    assert_eq!(canvas.pixels.frame().len(), 5 * 5 * 4);
    assert!(canvas.pixels.frame().iter().all(|byte| *byte == 0));

    let pixels = canvas.iter_pixels();
    assert_eq!(pixels.len(), 25);
    let black = Rgb::black();
    for pixel in pixels {
        assert_eq!(pixel.rgb, black);
    }
}

#[test]
fn iter_points_walks_column_by_column() {
    let pixels = TestPixels::new(3, 2);
    let canvas = Canvas::new(3, 2, pixels);
    let points = canvas.iter_points();
    assert_eq!(points.len(), 6);
    let expected = [(0, 0), (0, 1), (1, 0), (1, 1), (2, 0), (2, 1)];
    for (point, (x, y)) in points.iter().zip(expected.iter()) {
        assert_eq!(point.x.units, x * 1_000_000);
        assert_eq!(point.y.units, y * 1_000_000);
    }
}

#[test]
fn iter_pixels_walks_the_buffer_row_by_row() {
    let pixels = TestPixels::new(3, 2);
    let canvas = Canvas::new(3, 2, pixels);
    let out = canvas.iter_pixels();
    assert_eq!(out.len(), 6);
    let expected = [(0, 0), (1, 0), (2, 0), (0, 1), (1, 1), (2, 1)];
    for (pixel, (x, y)) in out.iter().zip(expected.iter()) {
        assert_eq!(pixel.xy.x.units, x * 1_000_000);
        assert_eq!(pixel.xy.y.units, y * 1_000_000);
    }
}

#[test]
fn frame_index_round_trips_through_coordinates() {
    let pixels = TestPixels::new(10, 20);
    let canvas = Canvas::new(10, 20, pixels);
    for index in 0..200 {
        let xy = canvas.xy_from_frame_index(index);
        assert_eq!(canvas.frame_index(xy), index * 4);
    }
}

#[test]
fn update_frame_stores_raw_bytes() {
    let pixels = TestPixels::new(4, 4);
    let mut canvas = Canvas::new(4, 4, pixels);
    let xy = pt2(Scalar::from_int(1), Scalar::from_int(2));
    canvas.update_frame(xy, [1, 2, 3, 4]).unwrap();
    let frame = canvas.pixels.frame();
    let start = (2 * 4 + 1) * 4;
    assert_eq!(&frame[start..start + 4], &[1, 2, 3, 4]);
}

#[test]
fn size_reports_the_extents() {
    let pixels = TestPixels::new(7, 9);
    let canvas = Canvas::new(7, 9, pixels);
    let size = canvas.size();
    assert_eq!(size.width.units, 7_000_000);
    assert_eq!(size.height.units, 9_000_000);
}

#[test]
fn test_pixels_render_always_succeeds() {
    let pixels = TestPixels::new(2, 2);
    assert!(pixels.render().is_ok());
}

#[test]
fn test_pixels_frame_mut_writes_through() {
    let mut pixels = TestPixels::new(2, 2);
    pixels.frame_mut()[0] = 9;
    assert_eq!(pixels.frame()[0], 9);
}

#[test]
fn test_pixels_resize_surface_zeroes() {
    let mut pixels = TestPixels::new(2, 2);
    pixels.frame_mut()[0] = 9;
    pixels.resize_surface(3, 1).unwrap();
    assert_eq!(pixels.width, 3);
    assert_eq!(pixels.height, 1);
    assert_eq!(pixels.frame().len(), 12);
    assert!(pixels.frame().iter().all(|byte| *byte == 0));
}
