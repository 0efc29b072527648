use title_card::geometry::{fit_background, ImageSize, Placement, HEIGHT, WIDTH};
use title_card::units::{Ratio, UNITS_PER_PIXEL};

fn size(width: i32, height: i32) -> ImageSize {
    ImageSize::new(width, height).unwrap()
}

/// The offset in pixels; exact, since a unit is a power of two.
fn pixels(units: i64) -> f64 {
    units as f64 / UNITS_PER_PIXEL as f64
}

#[test]
fn the_canvas_is_1440_by_1080() {
    assert_eq!(WIDTH, 1440);
    assert_eq!(HEIGHT, 1080);
}

#[test]
fn image_size_keeps_positive_sides() {
    let s = size(2880, 1620);
    assert_eq!(s.width(), 2880);
    assert_eq!(s.height(), 1620);
    assert!(ImageSize::new(1, 1).is_some());
    assert!(ImageSize::new(i32::MAX, i32::MAX).is_some());
}

#[test]
fn image_size_refuses_sides_that_are_not_positive() {
    assert_eq!(ImageSize::new(0, 10), None);
    assert_eq!(ImageSize::new(10, 0), None);
    assert_eq!(ImageSize::new(-1, 10), None);
    assert_eq!(ImageSize::new(10, -1), None);
    assert_eq!(ImageSize::new(0, 0), None);
    assert_eq!(ImageSize::new(i32::MIN, i32::MIN), None);
}

#[test]
fn an_image_of_canvas_size_is_drawn_as_it_is() {
    assert_eq!(
        fit_background(size(1440, 1080)),
        Placement { scale: Ratio { num: 1440, den: 1440 }, x: 0, y: 0 }
    );
}

#[test]
fn a_wide_image_is_scaled_down_and_centred() {
    // Twice the canvas width: scale one half; the canvas then spans 2160 image
    // rows, of which the image fills 1620, leaving 270 above and below.
    let placement = fit_background(size(2880, 1620));
    assert_eq!(
        placement,
        Placement { scale: Ratio { num: 1440, den: 2880 }, x: 0, y: 4_423_680 }
    );
    assert_eq!(placement.scale.num as f64 / placement.scale.den as f64, 0.5);
    assert_eq!(pixels(placement.y), 270.0);
    assert_eq!(pixels(fit_background(size(1920, 1080)).y), 180.0);
}

#[test]
fn a_small_image_is_scaled_up() {
    let placement = fit_background(size(800, 600));
    assert_eq!(placement, Placement { scale: Ratio { num: 1440, den: 800 }, x: 0, y: 0 });
    assert_eq!(placement.scale.num as f64 / placement.scale.den as f64, 1.8);
}

#[test]
fn a_tall_image_is_cropped_top_and_bottom() {
    assert_eq!(fit_background(size(1440, 2000)).y, -7_536_640);
    assert_eq!(pixels(fit_background(size(1440, 2000)).y), -460.0);
    assert_eq!(pixels(fit_background(size(1000, 1000)).y), -125.0);
    assert_eq!(fit_background(size(3, 7)).y, -38_912);
    assert_eq!(pixels(fit_background(size(3, 7)).y), (1080.0 / 480.0 - 7.0) / 2.0);
}

#[test]
fn the_offset_is_not_rounded() {
    // One row too tall: half a row is cropped at the top, half at the bottom.
    assert_eq!(fit_background(size(1440, 1081)).y, -8_192);
    assert_eq!(pixels(fit_background(size(1440, 1081)).y), -0.5);
    assert_eq!(pixels(fit_background(size(1440, 1079)).y), 0.5);
    assert_eq!(pixels(fit_background(size(1440, 1077)).y), 1.5);
    assert_eq!(pixels(fit_background(size(1440, 1083)).y), -1.5);
    // At scale ten, half an image row is five canvas rows.
    assert_eq!(fit_background(size(144, 109)).y, -8_192);
    assert_eq!(pixels(fit_background(size(800, 1)).y), 299.5);
}

#[test]
fn an_image_that_is_too_tall_starts_above_the_canvas() {
    for (w, h) in [(1440, 1081), (144, 109), (4, 4), (1, 1), (1439, 1080), (i32::MAX, i32::MAX)] {
        assert!(fit_background(size(w, h)).y < 0);
    }
    for (w, h) in [(1440, 1079), (144, 107), (4, 2), (2, 1), (1441, 1080), (i32::MAX, 1)] {
        assert!(fit_background(size(w, h)).y > 0);
    }
    for (w, h) in [(1440, 1080), (4, 3), (800, 600), (2880, 2160)] {
        assert_eq!(fit_background(size(w, h)).y, 0);
    }
}

#[test]
fn the_scale_depends_on_the_width_alone() {
    let flat = fit_background(size(800, 1));
    let square = fit_background(size(800, 800));
    let tall = fit_background(size(800, 5000));
    assert_eq!(flat.scale, Ratio { num: 1440, den: 800 });
    assert_eq!(square.scale, flat.scale);
    assert_eq!(tall.scale, flat.scale);
    assert_ne!(flat.y, tall.y);
}

#[test]
fn the_largest_images_are_placed_without_overflow() {
    assert_eq!(
        fit_background(size(i32::MAX, 1)),
        Placement {
            scale: Ratio { num: 1440, den: 2_147_483_647 },
            x: 0,
            y: 13_194_139_518_976,
        }
    );
    assert_eq!(fit_background(size(1, i32::MAX)).y, -17_592_186_030_080);
    assert_eq!(fit_background(size(i32::MAX, i32::MAX)).y, -4_398_046_509_056);
}

#[test]
fn the_background_always_starts_at_the_left_edge() {
    for (w, h) in [(1, 1), (1440, 1080), (5000, 17), (17, 5000)] {
        assert_eq!(fit_background(size(w, h)).x, 0);
    }
}
