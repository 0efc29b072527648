use title_card::overlay::OverlayType;
use title_card::text_fit::{drawn_width, fit_caption, squeeze, CaptionFit};
use title_card::units::{Length, Ratio};

fn px(pixels: u32) -> Length {
    Length::from_pixels(pixels)
}

fn factor(ratio: Ratio) -> f64 {
    ratio.num as f64 / ratio.den as f64
}

#[test]
fn a_short_caption_is_not_squeezed() {
    // "Hi" in the body typeface is far narrower than 1200 pixels.
    let fit = fit_caption(px(70), &OverlayType::Normal);
    assert_eq!(fit, CaptionFit { scale_x: Ratio { num: 1, den: 1 }, anchor_x: 807, baseline: 1010 });
    assert!(fit.scale_x.is_one());
}

#[test]
fn a_caption_of_1500_pixels_is_squeezed_to_four_fifths() {
    let fit = fit_caption(px(1500), &OverlayType::Normal);
    assert_eq!(fit.scale_x, Ratio { num: 19_660_800, den: 24_576_000 });
    assert_eq!(factor(fit.scale_x), 0.80);
    assert_eq!(factor(fit.scale_x), 1.0 - (1500.0 - 1200.0) / 1500.0);
    assert_eq!(fit.anchor_x, 807);
    assert_eq!(fit.baseline, 1010);
}

#[test]
fn the_highlight_variant_has_a_narrower_band() {
    let overlay = OverlayType::Highlight(String::from("Breaking"));
    let fit = fit_caption(px(1500), &overlay);
    assert_eq!(fit, CaptionFit { scale_x: Ratio { num: 16_384_000, den: 24_576_000 }, anchor_x: 900, baseline: 1010 });
    // 1100 pixels fit the normal band but not the highlight band.
    assert!(fit_caption(px(1100), &OverlayType::Normal).scale_x.is_one());
    assert_eq!(fit_caption(px(1100), &overlay).scale_x, Ratio { num: 16_384_000, den: 18_022_400 });
}

#[test]
fn a_caption_as_wide_as_the_band_is_not_squeezed() {
    assert_eq!(squeeze(px(1200), px(1200)), Ratio { num: 1, den: 1 });
    assert_eq!(fit_caption(px(1200), &OverlayType::Normal).scale_x, Ratio { num: 1, den: 1 });
    let overlay = OverlayType::Highlight(String::new());
    assert_eq!(fit_caption(px(1000), &overlay).scale_x, Ratio { num: 1, den: 1 });
}

#[test]
fn one_unit_over_the_band_is_squeezed() {
    let measured = Length::from_units(19_660_801);
    assert_eq!(squeeze(measured, px(1200)), Ratio { num: 19_660_800, den: 19_660_801 });
    assert_eq!(drawn_width(measured, px(1200)), px(1200));
}

#[test]
fn a_caption_a_hair_over_the_band_is_squeezed_by_its_exact_width() {
    // 1200 pixels and one 8192nd: two units over the band.
    let measured = Length::from_units(1200 * 16_384 + 2);
    let fit = fit_caption(measured, &OverlayType::Normal);
    assert_eq!(fit.scale_x, Ratio { num: 19_660_800, den: 19_660_802 });
    assert_eq!(factor(fit.scale_x), 1200.0 / (1200.0 + 1.0 / 8192.0));
}

#[test]
fn the_drawn_width_never_exceeds_the_band() {
    let band = px(1200);
    for units in [0u64, 1, 16_384, 19_660_799, 19_660_800, 19_660_801, 24_576_000, 1_000_000_000, u64::MAX] {
        let measured = Length::from_units(units);
        let drawn = drawn_width(measured, band);
        assert!(drawn.units <= band.units);
        if units > band.units {
            assert_eq!(drawn, band);
            // The factor times the measured width is the band, exactly.
            let ratio = squeeze(measured, band);
            assert_eq!(ratio.scale(measured), Some(band));
        } else {
            assert_eq!(drawn, measured);
            assert_eq!(squeeze(measured, band), Ratio { num: 1, den: 1 });
        }
    }
}

#[test]
fn an_empty_caption_is_not_squeezed() {
    let fit = fit_caption(Length::from_units(0), &OverlayType::Normal);
    assert_eq!(fit.scale_x, Ratio { num: 1, den: 1 });
    assert_eq!(drawn_width(Length::from_units(0), px(1200)), Length { units: 0 });
}

#[test]
fn the_longest_caption_still_has_a_positive_factor() {
    // No clamp is applied: the factor shrinks with the caption, and stays
    // above zero however long the caption is.
    let fit = fit_caption(Length::from_units(u64::MAX), &OverlayType::Normal);
    assert_eq!(fit.scale_x, Ratio { num: 19_660_800, den: u64::MAX });
    assert!(factor(fit.scale_x) > 0.0);
    assert!(factor(fit.scale_x) < 0.000_000_000_002);
    let overlay = OverlayType::Highlight(String::from("x"));
    assert_eq!(fit_caption(Length::from_units(u64::MAX), &overlay).scale_x, Ratio { num: 16_384_000, den: u64::MAX });
}

#[test]
fn squeeze_is_the_band_over_the_measured_width() {
    assert_eq!(squeeze(Length { units: 10 }, Length { units: 4 }), Ratio { num: 4, den: 10 });
    assert_eq!(squeeze(Length { units: 4 }, Length { units: 10 }), Ratio { num: 1, den: 1 });
    assert_eq!(squeeze(Length { units: 0 }, Length { units: 0 }), Ratio { num: 1, den: 1 });
    assert_eq!(squeeze(Length { units: 5 }, Length { units: 0 }), Ratio { num: 0, den: 5 });
}
