//! Fitting the caption into its band: a caption wider than the band is
//! squeezed horizontally, by exactly as much as brings it down to the band.

use vstd::prelude::*;
use vstd::arithmetic::div_mod::lemma_div_multiples_vanish;
use crate::overlay::{OverlayType, Variant, CAPTION_BASELINE};
use crate::units::{Length, Ratio};

verus! {

/// The horizontal scale for text that measures `measured` in a band of
/// `threshold`: `threshold / measured` where the text is wider than the band
/// (which is `1 - overflow / measured`, for the overflow
/// `measured - threshold`), and `1 / 1` otherwise.
pub open spec fn squeeze_factor(measured: Length, threshold: Length) -> Ratio {
    if measured.units > threshold.units {
        Ratio { num: threshold.units, den: measured.units }
    } else {
        Ratio::identity()
    }
}

/// The width at which text is drawn that measures `measured` at its natural
/// scale, once squeezed into a band of `threshold`.
pub open spec fn drawn_units(measured: Length, threshold: Length) -> int {
    squeeze_factor(measured, threshold).apply(measured.units as int)
}

/// Squeezing never makes text wider than the band, and leaves text alone
/// that fits: text wider than the band is drawn exactly as wide as the band,
/// any other text at scale `1 / 1` and at the width it measures.
pub proof fn lemma_squeeze_fits_band(measured: Length, threshold: Length)
    ensures
        drawn_units(measured, threshold) <= threshold.units,
        measured.units > threshold.units ==> drawn_units(measured, threshold) == threshold.units,
        measured.units <= threshold.units ==> {
            &&& squeeze_factor(measured, threshold) == Ratio::identity()
            &&& drawn_units(measured, threshold) == measured.units
        },
{
    let factor = squeeze_factor(measured, threshold);
    if measured.units > threshold.units {
        lemma_div_multiples_vanish(threshold.units as int, measured.units as int);
    } else {
        assert(factor.num == 1 && factor.den == 1);
        assert(factor.apply(measured.units as int) == (measured.units * 1) / 1);
    }
}

/// However long the text, the squeeze for a band of positive width is a
/// fraction above zero: it never collapses the text or mirrors it.
pub proof fn lemma_squeeze_is_positive(measured: Length, threshold: Length)
    requires
        threshold.units > 0,
    ensures
        squeeze_factor(measured, threshold).wf(),
        squeeze_factor(measured, threshold).num <= squeeze_factor(measured, threshold).den,
{
}

/// The horizontal scale that fits text measuring `measured` into a band of
/// `threshold`.
pub fn squeeze(measured: Length, threshold: Length) -> (factor: Ratio)
    ensures
        factor == squeeze_factor(measured, threshold),
        threshold.units > 0 ==> factor.wf(),
{
    if measured.units > threshold.units {
        Ratio { num: threshold.units, den: measured.units }
    } else {
        Ratio::one()
    }
}

/// The width at which text measuring `measured` is drawn in a band of
/// `threshold`.
pub fn drawn_width(measured: Length, threshold: Length) -> (width: Length)
    ensures
        width.units == drawn_units(measured, threshold),
        width.units <= threshold.units,
{
    proof {
        lemma_squeeze_fits_band(measured, threshold);
    }
    if measured.units > threshold.units {
        threshold
    } else {
        measured
    }
}

/// How the caption is set: its horizontal scale, and the point at which it is
/// centred on its baseline.
#[derive(Clone, Copy, Debug, PartialEq, Eq, Structural)]
pub struct CaptionFit {
    pub scale_x: Ratio,
    pub anchor_x: i32,
    pub baseline: i32,
}

/// The setting of a caption that measures `measured` in the given variant.
pub open spec fn caption_fit(measured: Length, variant: Variant) -> CaptionFit {
    CaptionFit {
        scale_x: squeeze_factor(measured, variant.width_threshold()),
        anchor_x: variant.anchor_x() as i32,
        baseline: CAPTION_BASELINE,
    }
}

/// In either variant the caption stays inside its band: a caption that
/// measures more than the band is drawn exactly as wide as the band, and one
/// that measures no more is drawn unscaled, as wide as it measures.
pub proof fn lemma_caption_stays_in_band(measured: Length, variant: Variant)
    ensures
        ({
            let band = variant.width_threshold();
            let fit = caption_fit(measured, variant);
            &&& fit.scale_x.wf()
            &&& fit.scale_x.apply(measured.units as int) <= band.units
            &&& measured.units > band.units ==> fit.scale_x.apply(measured.units as int)
                == band.units
            &&& measured.units <= band.units ==> fit.scale_x == Ratio::identity()
                && fit.scale_x.apply(measured.units as int) == measured.units
        }),
{
    lemma_squeeze_fits_band(measured, variant.width_threshold());
    lemma_squeeze_is_positive(measured, variant.width_threshold());
}

/// Sets a caption that measures `measured` at the body typeface's natural
/// scale: squeezed into the variant's band, centred at the variant's anchor.
pub fn fit_caption(measured: Length, overlay: &OverlayType) -> (fit: CaptionFit)
    ensures
        fit == caption_fit(measured, overlay@),
        fit.scale_x.wf(),
{
    CaptionFit {
        scale_x: squeeze(measured, overlay.width_threshold()),
        anchor_x: overlay.anchor_x(),
        baseline: CAPTION_BASELINE,
    }
}

} // verus!
