use title_card::units::{Length, Ratio, UNITS_PER_PIXEL};

#[test]
fn a_pixel_has_16384_units() {
    assert_eq!(UNITS_PER_PIXEL, 16_384);
    assert_eq!(Length::from_pixels(1), Length { units: 16_384 });
    assert_eq!(Length::from_pixels(1200), Length { units: 19_660_800 });
    assert_eq!(Length::from_pixels(0), Length { units: 0 });
}

#[test]
fn from_pixels_holds_every_whole_width() {
    assert_eq!(Length::from_pixels(u32::MAX), Length { units: 70_368_744_161_280 });
}

#[test]
fn from_units_keeps_the_units() {
    assert_eq!(Length::from_units(0).units, 0);
    assert_eq!(Length::from_units(24_576_000).units, 24_576_000);
    assert_eq!(Length::from_units(u64::MAX).units, u64::MAX);
}

#[test]
fn one_is_the_identity_ratio() {
    let one = Ratio::one();
    assert_eq!(one, Ratio { num: 1, den: 1 });
    assert!(one.is_one());
    assert!(Ratio { num: 7, den: 7 }.is_one());
    assert!(!Ratio { num: 4, den: 5 }.is_one());
    assert!(!Ratio { num: 0, den: 0 }.is_one());
}

#[test]
fn scale_multiplies_then_divides_rounding_down() {
    let four_fifths = Ratio { num: 4, den: 5 };
    assert_eq!(four_fifths.scale(Length { units: 24_576_000 }), Some(Length { units: 19_660_800 }));
    assert_eq!(four_fifths.scale(Length { units: 9 }), Some(Length { units: 7 }));
    assert_eq!(four_fifths.scale(Length { units: 0 }), Some(Length { units: 0 }));
    assert_eq!(Ratio::one().scale(Length { units: u64::MAX }), Some(Length { units: u64::MAX }));
}

#[test]
fn scale_refuses_a_result_that_does_not_fit() {
    let huge = Ratio { num: u64::MAX, den: 1 };
    assert_eq!(huge.scale(Length { units: 1 }), Some(Length { units: u64::MAX }));
    assert_eq!(huge.scale(Length { units: 2 }), None);
    assert_eq!(Ratio { num: 3, den: 2 }.scale(Length { units: u64::MAX }), None);
    assert_eq!(huge.scale(Length { units: u64::MAX }), None);
}

#[test]
fn scale_refuses_a_ratio_without_value() {
    assert_eq!(Ratio { num: 1, den: 0 }.scale(Length { units: 10 }), None);
    assert_eq!(Ratio { num: 0, den: 0 }.scale(Length { units: 0 }), None);
    assert_eq!(Ratio { num: 0, den: 3 }.scale(Length { units: 10 }), Some(Length { units: 0 }));
}
