//! Fitting the background photo to the canvas: width-locked scale, vertical
//! centring, and cropping of what does not fit.

use vstd::prelude::*;
use crate::units::{Ratio, UNITS_PER_PIXEL};

verus! {

/// Width of the canvas, in pixels.
pub const WIDTH: i32 = 1440;

/// Height of the canvas, in pixels.
pub const HEIGHT: i32 = 1080;

/// Intrinsic size of a decoded image, in pixels. Both sides are positive: a
/// decoded image has at least one pixel in each direction.
#[derive(Clone, Copy, Debug, PartialEq, Eq)]
pub struct ImageSize {
    width: i32,
    height: i32,
}

impl ImageSize {
    #[verifier::type_invariant]
    spec fn positive(self) -> bool {
        self.width > 0 && self.height > 0
    }

    /// The width, in pixels.
    pub closed spec fn spec_width(self) -> int {
        self.width as int
    }

    /// The height, in pixels.
    pub closed spec fn spec_height(self) -> int {
        self.height as int
    }

    /// Both sides are positive and fit the machine's integers.
    pub open spec fn wf(self) -> bool {
        &&& 0 < self.spec_width() <= i32::MAX
        &&& 0 < self.spec_height() <= i32::MAX
    }

    /// The size `width` by `height`, or `None` where either is not positive.
    pub fn new(width: i32, height: i32) -> (size: Option<ImageSize>)
        ensures
            size is Some <==> width > 0 && height > 0,
            size matches Some(s) ==> s.spec_width() == width && s.spec_height() == height
                && s.wf(),
    {
        if width > 0 && height > 0 {
            Some(ImageSize { width, height })
        } else {
            None
        }
    }

    /// The width, in pixels.
    pub fn width(&self) -> (width: i32)
        ensures
            width == self.spec_width(),
            width > 0,
    {
        proof {
            use_type_invariant(self);
        }
        self.width
    }

    /// The height, in pixels.
    pub fn height(&self) -> (height: i32)
        ensures
            height == self.spec_height(),
            height > 0,
    {
        proof {
            use_type_invariant(self);
        }
        self.height
    }
}

/// Where the background goes: a uniform scale, and the top-left corner in the
/// image's own (unscaled) pixels, counted in 16384ths of a pixel.
#[derive(Clone, Copy, Debug, PartialEq, Eq, Structural)]
pub struct Placement {
    pub scale: Ratio,
    pub x: i64,
    pub y: i64,
}

/// The scale that makes an image exactly as wide as the canvas.
pub open spec fn fit_scale(size: ImageSize) -> Ratio {
    Ratio { num: WIDTH as u64, den: size.spec_width() as u64 }
}

/// Height left over above and below the scaled image together, measured in
/// image pixels and multiplied by `WIDTH`. Negative where the image is too tall.
pub open spec fn vertical_slack(size: ImageSize) -> int {
    HEIGHT * size.spec_width() - size.spec_height() * WIDTH
}

/// Top edge that centres the scaled image, `(HEIGHT / scale - height) / 2`,
/// in 16384ths of an image pixel. The division leaves no remainder: see
/// [`lemma_fit_is_exact`].
pub open spec fn fit_offset_y(size: ImageSize) -> int {
    UNITS_PER_PIXEL * vertical_slack(size) / (2 * WIDTH)
}

/// The scale applied to the background is the canvas width over the image
/// width, whatever the image height: two images of one width get one scale.
pub proof fn lemma_scale_ignores_height(a: ImageSize, b: ImageSize)
    requires
        a.wf(),
        b.wf(),
        a.spec_width() == b.spec_width(),
    ensures
        fit_scale(a) == fit_scale(b),
        fit_scale(a).num == WIDTH,
        fit_scale(a).den == a.spec_width(),
        fit_scale(a).wf(),
{
}

/// The offset is exact, nothing is rounded: it is a whole number of units,
/// and the scaled image has as much of the canvas above it as below it. In
/// units it is `2048 * (3 * width - 4 * height)`.
pub proof fn lemma_fit_is_exact(size: ImageSize)
    requires
        size.wf(),
    ensures
        (UNITS_PER_PIXEL * vertical_slack(size)) % (2 * WIDTH) == 0,
        2 * WIDTH * fit_offset_y(size) == UNITS_PER_PIXEL * vertical_slack(size),
        fit_offset_y(size) == 2048 * (3 * size.spec_width() - 4 * size.spec_height()),
        i64::MIN <= fit_offset_y(size) <= i64::MAX,
{
    let whole = 2048 * (3 * size.spec_width() - 4 * size.spec_height());
    assert(UNITS_PER_PIXEL * vertical_slack(size) == 2880 * whole);
    assert(2 * WIDTH == 2880);
}

/// Fill and crop: an image that is too tall once scaled starts above the
/// canvas's top edge and is cropped; one that is not tall enough starts below
/// it; one of the canvas's proportions starts on it. None is an error.
pub proof fn lemma_fit_fills_and_crops(size: ImageSize)
    requires
        size.wf(),
    ensures
        size.spec_height() * WIDTH > HEIGHT * size.spec_width() ==> fit_offset_y(size) < 0,
        size.spec_height() * WIDTH < HEIGHT * size.spec_width() ==> fit_offset_y(size) > 0,
        size.spec_height() * WIDTH == HEIGHT * size.spec_width() ==> fit_offset_y(size) == 0,
{
    lemma_fit_is_exact(size);
}

/// Fits an image to the canvas: scaled to the canvas width whatever its
/// height, centred vertically, cropped top and bottom where it is too tall.
pub fn fit_background(size: ImageSize) -> (placement: Placement)
    ensures
        placement.scale == fit_scale(size),
        placement.scale.wf(),
        placement.x == 0,
        placement.y == fit_offset_y(size),
{
    let width: i64 = size.width() as i64;
    let height: i64 = size.height() as i64;
    let canvas_width: i64 = WIDTH as i64;
    let canvas_height: i64 = HEIGHT as i64;
    let units: i64 = UNITS_PER_PIXEL as i64;
    let slack: i64 = canvas_height * width - height * canvas_width;
    let span: i64 = 2 * canvas_width;
    proof {
        lemma_fit_is_exact(size);
    }
    let y: i64 = if slack >= 0 {
        units * slack / span
    } else {
        -(units * (-slack) / span)
    };
    Placement { scale: Ratio { num: WIDTH as u64, den: size.width() as u64 }, x: 0, y }
}

} // verus!
