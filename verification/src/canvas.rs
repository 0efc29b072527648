//! The canvas and what is drawn on it.
//!
//! A [`Canvas`] records drawing operations in the order they are issued. A
//! raster backend replays them, in that order, onto a surface of
//! `WIDTH` by `HEIGHT` pixels; later operations cover earlier ones.

use vstd::prelude::*;
use crate::geometry::{fit_background, fit_offset_y, fit_scale, ImageSize};
use crate::overlay::{
    Asset, OverlayType, TextStyle, Variant, BLACK, HIGHLIGHT_ANCHOR_X, HIGHLIGHT_BASELINE, WHITE,
};
use crate::text_fit::{caption_fit, fit_caption, squeeze_factor};
use crate::units::{Length, Ratio};

verus! {

/// An image that can be drawn: the decoded background, or a bundled graphic.
#[derive(Clone, Copy, Debug, PartialEq, Eq, Structural)]
pub enum Picture {
    Background,
    Bundled(Asset),
}

/// One drawing operation.
#[derive(Debug, PartialEq, Eq)]
pub enum DrawOp {
    /// Replaces the transform by a uniform scale about the origin.
    SetScale(Ratio),
    /// Replaces the transform by the identity.
    ResetTransform,
    /// Draws `picture` with its top-left corner at (`x`, `y`), under the
    /// transform in force. Both are counted in 16384ths of a pixel.
    Image { picture: Picture, x: i64, y: i64 },
    /// Draws `text` in `style`, centred horizontally at `x` on the baseline
    /// `y`, both in whole pixels, its glyphs scaled by `scale_x` along the
    /// x axis only.
    Text { text: String, style: TextStyle, x: i32, y: i32, scale_x: Ratio },
}

/// What a [`DrawOp`] stands for in contracts.
pub enum Mark {
    SetScale(Ratio),
    ResetTransform,
    Image { picture: Picture, x: int, y: int },
    Text { text: Seq<char>, style: TextStyle, x: int, y: int, scale_x: Ratio },
}

impl View for DrawOp {
    type V = Mark;

    open spec fn view(&self) -> Mark {
        match self {
            DrawOp::SetScale(scale) => Mark::SetScale(*scale),
            DrawOp::ResetTransform => Mark::ResetTransform,
            DrawOp::Image { picture, x, y } => Mark::Image {
                picture: *picture,
                x: *x as int,
                y: *y as int,
            },
            DrawOp::Text { text, style, x, y, scale_x } => Mark::Text {
                text: text@,
                style: *style,
                x: *x as int,
                y: *y as int,
                scale_x: *scale_x,
            },
        }
    }
}

impl Mark {
    /// Whether this draws a string in the highlight style.
    pub open spec fn is_highlight_text(self) -> bool {
        self matches Mark::Text { style, .. } && style == TextStyle::Highlight
    }
}

/// The background fitted to the canvas, then the variant's overlay at the
/// origin under the identity transform.
pub open spec fn background_marks(background: ImageSize, variant: Variant) -> Seq<Mark> {
    seq![
        Mark::SetScale(fit_scale(background)),
        Mark::Image { picture: Picture::Background, x: 0, y: fit_offset_y(background) },
        Mark::ResetTransform,
        Mark::Image { picture: Picture::Bundled(variant.overlay_asset()), x: 0, y: 0 },
    ]
}

/// The highlight string: highlight style, at its fixed anchor, never squeezed.
pub open spec fn highlight_mark(highlight: Seq<char>) -> Mark {
    Mark::Text {
        text: highlight,
        style: TextStyle::Highlight,
        x: HIGHLIGHT_ANCHOR_X as int,
        y: HIGHLIGHT_BASELINE as int,
        scale_x: Ratio::identity(),
    }
}

/// The caption: body style, at the variant's anchor, squeezed into the
/// variant's band.
pub open spec fn caption_mark(text: Seq<char>, variant: Variant, measured: Length) -> Mark {
    Mark::Text {
        text,
        style: TextStyle::Body,
        x: caption_fit(measured, variant).anchor_x as int,
        y: caption_fit(measured, variant).baseline as int,
        scale_x: caption_fit(measured, variant).scale_x,
    }
}

/// The variant's highlight string, if it carries one, then the caption.
pub open spec fn text_marks(text: Seq<char>, variant: Variant, measured: Length) -> Seq<Mark> {
    match variant {
        Variant::Normal => seq![caption_mark(text, variant, measured)],
        Variant::Highlight(highlight) => seq![
            highlight_mark(highlight),
            caption_mark(text, variant, measured),
        ],
    }
}

/// Everything one card shows, in drawing order: background, overlay,
/// highlight string (highlight variant only), caption.
pub open spec fn scene(
    text: Seq<char>,
    variant: Variant,
    background: ImageSize,
    measured: Length,
) -> Seq<Mark> {
    background_marks(background, variant) + text_marks(text, variant, measured)
}

/// Every card is drawn in one order: the background under the fitting scale,
/// the overlay under the identity transform, and only then text, the caption
/// last.
pub proof fn lemma_scene_order(
    text: Seq<char>,
    variant: Variant,
    background: ImageSize,
    measured: Length,
)
    ensures
        ({
            let marks = scene(text, variant, background, measured);
            &&& marks.len() == if variant is Normal { 5int } else { 6int }
            &&& marks[0] == Mark::SetScale(fit_scale(background))
            &&& marks[1] == (Mark::Image {
                picture: Picture::Background,
                x: 0,
                y: fit_offset_y(background),
            })
            &&& marks[2] == Mark::ResetTransform
            &&& marks[3] == (Mark::Image {
                picture: Picture::Bundled(variant.overlay_asset()),
                x: 0,
                y: 0,
            })
            &&& forall|i: int| 0 <= i < marks.len() ==> ((#[trigger] marks[i]) is Text <==> i >= 4)
            &&& marks.last() == caption_mark(text, variant, measured)
        }),
{
}

/// The normal variant never draws a highlight string: its one string is the
/// caption, in the body style (black), centred at (807, 1010), squeezed into
/// a band of 1200 pixels.
pub proof fn lemma_normal_draws_caption_only(
    text: Seq<char>,
    background: ImageSize,
    measured: Length,
)
    ensures
        ({
            let marks = scene(text, Variant::Normal, background, measured);
            &&& forall|i: int| 0 <= i < marks.len() ==> !(#[trigger] marks[i]).is_highlight_text()
            &&& marks.len() == 5
            &&& marks[4] == (Mark::Text {
                text,
                style: TextStyle::Body,
                x: 807,
                y: 1010,
                scale_x: squeeze_factor(measured, Length::of_pixels(1200)),
            })
            &&& TextStyle::Body.spec_color() == BLACK
        }),
{
}

/// The highlight variant always draws both strings: first the highlight
/// string in the highlight style (white), centred at (292, 1004) and never
/// squeezed; then the caption in the body style (black), centred at
/// (900, 1010), squeezed into a band of 1000 pixels.
pub proof fn lemma_highlight_draws_both(
    text: Seq<char>,
    highlight: Seq<char>,
    background: ImageSize,
    measured: Length,
)
    ensures
        ({
            let marks = scene(text, Variant::Highlight(highlight), background, measured);
            &&& marks.len() == 6
            &&& marks[4] == (Mark::Text {
                text: highlight,
                style: TextStyle::Highlight,
                x: 292,
                y: 1004,
                scale_x: Ratio::identity(),
            })
            &&& marks[5] == (Mark::Text {
                text,
                style: TextStyle::Body,
                x: 900,
                y: 1010,
                scale_x: squeeze_factor(measured, Length::of_pixels(1000)),
            })
            &&& TextStyle::Highlight.spec_color() == WHITE
            &&& TextStyle::Body.spec_color() == BLACK
        }),
{
}

/// A recording of drawing operations, in the order they were issued.
#[derive(Debug, PartialEq, Eq)]
pub struct Canvas {
    ops: Vec<DrawOp>,
}

impl View for Canvas {
    type V = Seq<Mark>;

    closed spec fn view(&self) -> Seq<Mark> {
        self.ops@.map_values(|op: DrawOp| op@)
    }
}

impl Canvas {
    /// A canvas on which nothing has been drawn.
    pub fn new() -> (canvas: Canvas)
        ensures
            canvas@ == Seq::<Mark>::empty(),
    {
        let canvas = Canvas { ops: Vec::new() };
        assert(canvas@ =~= Seq::<Mark>::empty());
        canvas
    }

    /// The recorded operations, first drawn first.
    pub fn ops(&self) -> (ops: &Vec<DrawOp>)
        ensures
            ops@.len() == self@.len(),
            forall|i: int| 0 <= i < ops@.len() ==> (#[trigger] ops@[i])@ == self@[i],
    {
        &self.ops
    }

    /// Records one more operation, after those already recorded.
    fn push(&mut self, op: DrawOp)
        ensures
            final(self)@ == old(self)@.push(op@),
    {
        self.ops.push(op);
        assert(self@ =~= old(self)@.push(op@));
    }
}

/// Draws the background and the overlay: the background scaled to the canvas
/// width and centred vertically (cropped where too tall), then the variant's
/// overlay, unscaled, at the origin.
pub fn composite(canvas: &mut Canvas, background: ImageSize, overlay: &OverlayType)
    ensures
        final(canvas)@ == old(canvas)@ + background_marks(background, overlay@),
{
    let placement = fit_background(background);
    canvas.push(DrawOp::SetScale(placement.scale));
    canvas.push(DrawOp::Image { picture: Picture::Background, x: placement.x, y: placement.y });
    canvas.push(DrawOp::ResetTransform);
    canvas.push(
        DrawOp::Image { picture: Picture::Bundled(overlay.overlay_asset()), x: 0, y: 0 },
    );
    assert(canvas@ =~= old(canvas)@ + background_marks(background, overlay@));
}

/// Draws the text: in the highlight variant first the highlight string, in
/// its own style and never squeezed; then, in both variants, the caption,
/// squeezed into the variant's band. `measured` is the width of `text` in the
/// body typeface at its natural scale, rounded up to a whole unit.
pub fn draw_fitted(canvas: &mut Canvas, text: &str, overlay: &OverlayType, measured: Length)
    ensures
        final(canvas)@ == old(canvas)@ + text_marks(text@, overlay@, measured),
{
    match overlay {
        OverlayType::Normal => {},
        OverlayType::Highlight(highlight) => {
            canvas.push(
                DrawOp::Text {
                    text: highlight.clone(),
                    style: TextStyle::Highlight,
                    x: HIGHLIGHT_ANCHOR_X,
                    y: HIGHLIGHT_BASELINE,
                    scale_x: Ratio::one(),
                },
            );
        },
    }
    let fit = fit_caption(measured, overlay);
    canvas.push(
        DrawOp::Text {
            text: text.to_owned(),
            style: TextStyle::Body,
            x: fit.anchor_x,
            y: fit.baseline,
            scale_x: fit.scale_x,
        },
    );
    assert(canvas@ =~= old(canvas)@ + text_marks(text@, overlay@, measured));
}

/// Draws one card on a fresh canvas: background, overlay, highlight string
/// (highlight variant only), caption, in that order. `background` is the size
/// of the decoded background image, `measured` the width of `text` in the
/// body typeface at its natural scale, rounded up to a whole unit. Any text
/// is drawn, the empty string too.
pub fn draw(
    text: &str,
    overlay_type: &OverlayType,
    background: ImageSize,
    measured: Length,
) -> (canvas: Canvas)
    ensures
        canvas@ == scene(text@, overlay_type@, background, measured),
{
    let mut canvas = Canvas::new();
    composite(&mut canvas, background, overlay_type);
    draw_fitted(&mut canvas, text, overlay_type, measured);
    assert(canvas@ =~= scene(text@, overlay_type@, background, measured));
    canvas
}

} // verus!
