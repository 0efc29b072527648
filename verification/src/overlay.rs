//! The template's variants and what each one selects: overlay graphic,
//! typefaces, caption band and anchors.

use vstd::prelude::*;
use crate::units::Length;

verus! {

/// The named binary resources that a deployment bundles.
#[derive(Clone, Copy, Debug, PartialEq, Eq, Structural)]
pub enum Asset {
    DefaultBackground,
    OverlayNormal,
    OverlayHighlight,
    FontBody,
    FontHighlight,
}

impl Asset {
    /// The fixed name under which the asset is bundled.
    pub open spec fn spec_name(self) -> Seq<char> {
        match self {
            Asset::DefaultBackground => "bg_1.png"@,
            Asset::OverlayNormal => "overlay_1.png"@,
            Asset::OverlayHighlight => "overlay_2.png"@,
            Asset::FontBody => "font_1.otf"@,
            Asset::FontHighlight => "font_2.otf"@,
        }
    }

    /// The fixed name under which the asset is bundled.
    pub fn name(self) -> (name: &'static str)
        ensures
            name@ == self.spec_name(),
    {
        match self {
            Asset::DefaultBackground => "bg_1.png",
            Asset::OverlayNormal => "overlay_1.png",
            Asset::OverlayHighlight => "overlay_2.png",
            Asset::FontBody => "font_1.otf",
            Asset::FontHighlight => "font_2.otf",
        }
    }
}

/// Opaque black, as alpha, red, green, blue.
pub const BLACK: u32 = 0xFF00_0000;

/// Opaque white, as alpha, red, green, blue.
pub const WHITE: u32 = 0xFFFF_FFFF;

/// The two ways text is set: the caption's body style and the highlight's.
/// Both are anti-aliased.
#[derive(Clone, Copy, Debug, PartialEq, Eq, Structural)]
pub enum TextStyle {
    Body,
    Highlight,
}

impl TextStyle {
    /// The font file of the style.
    pub open spec fn spec_font(self) -> Asset {
        match self {
            TextStyle::Body => Asset::FontBody,
            TextStyle::Highlight => Asset::FontHighlight,
        }
    }

    /// The font size of the style, in pixels.
    pub open spec fn spec_size(self) -> u32 {
        match self {
            TextStyle::Body => 72,
            TextStyle::Highlight => 54,
        }
    }

    /// The fill colour of the style, as alpha, red, green, blue.
    pub open spec fn spec_color(self) -> u32 {
        match self {
            TextStyle::Body => BLACK,
            TextStyle::Highlight => WHITE,
        }
    }

    /// Whether glyph edges are anti-aliased: in both styles they are.
    pub open spec fn spec_anti_aliased(self) -> bool {
        true
    }

    /// The font file of the style.
    #[verifier::when_used_as_spec(spec_font)]
    pub fn font(self) -> (asset: Asset)
        ensures
            asset == self.spec_font(),
    {
        match self {
            TextStyle::Body => Asset::FontBody,
            TextStyle::Highlight => Asset::FontHighlight,
        }
    }

    /// The font size of the style, in pixels.
    #[verifier::when_used_as_spec(spec_size)]
    pub fn size(self) -> (size: u32)
        ensures
            size == self.spec_size(),
    {
        match self {
            TextStyle::Body => 72,
            TextStyle::Highlight => 54,
        }
    }

    /// The fill colour of the style, as alpha, red, green, blue.
    #[verifier::when_used_as_spec(spec_color)]
    pub fn color(self) -> (argb: u32)
        ensures
            argb == self.spec_color(),
    {
        match self {
            TextStyle::Body => BLACK,
            TextStyle::Highlight => WHITE,
        }
    }

    /// Whether glyph edges are anti-aliased: in both styles they are.
    #[verifier::when_used_as_spec(spec_anti_aliased)]
    pub fn anti_aliased(self) -> (smooth: bool)
        ensures
            smooth == self.spec_anti_aliased(),
    {
        true
    }
}

/// Width of the caption band of the normal variant, in pixels.
pub const NORMAL_BAND: u32 = 1200;

/// Width of the caption band of the highlight variant, in pixels.
pub const HIGHLIGHT_BAND: u32 = 1000;

/// Horizontal centre of the caption in the normal variant.
pub const NORMAL_ANCHOR_X: i32 = 807;

/// Horizontal centre of the caption in the highlight variant.
pub const HIGHLIGHT_CAPTION_ANCHOR_X: i32 = 900;

/// Baseline of the caption, in both variants.
pub const CAPTION_BASELINE: i32 = 1010;

/// Horizontal centre of the highlight string.
pub const HIGHLIGHT_ANCHOR_X: i32 = 292;

/// Baseline of the highlight string.
pub const HIGHLIGHT_BASELINE: i32 = 1004;

/// The template variant: plain, or with a highlight string set beside the
/// caption.
#[derive(Debug, PartialEq, Eq)]
pub enum OverlayType {
    Normal,
    Highlight(String),
}

/// What an [`OverlayType`] stands for in contracts.
pub enum Variant {
    Normal,
    Highlight(Seq<char>),
}

impl Variant {
    /// The overlay graphic of the variant.
    pub open spec fn overlay_asset(self) -> Asset {
        match self {
            Variant::Normal => Asset::OverlayNormal,
            Variant::Highlight(_) => Asset::OverlayHighlight,
        }
    }

    /// The widest the drawn caption may be.
    pub open spec fn width_threshold(self) -> Length {
        match self {
            Variant::Normal => Length::of_pixels(NORMAL_BAND as int),
            Variant::Highlight(_) => Length::of_pixels(HIGHLIGHT_BAND as int),
        }
    }

    /// The horizontal centre of the caption.
    pub open spec fn anchor_x(self) -> int {
        match self {
            Variant::Normal => NORMAL_ANCHOR_X as int,
            Variant::Highlight(_) => HIGHLIGHT_CAPTION_ANCHOR_X as int,
        }
    }
}

impl View for OverlayType {
    type V = Variant;

    open spec fn view(&self) -> Variant {
        match self {
            OverlayType::Normal => Variant::Normal,
            OverlayType::Highlight(text) => Variant::Highlight(text@),
        }
    }
}

impl Clone for OverlayType {
    fn clone(&self) -> (copy: OverlayType)
        ensures
            copy@ == self@,
    {
        match self {
            OverlayType::Normal => OverlayType::Normal,
            OverlayType::Highlight(text) => OverlayType::Highlight(text.clone()),
        }
    }
}

impl OverlayType {
    /// The variant for an optional highlight string: with one the highlight
    /// variant that carries it, without one the normal variant.
    pub fn from_highlight(highlight: Option<String>) -> (overlay: OverlayType)
        ensures
            overlay@ == match highlight {
                Some(text) => Variant::Highlight(text@),
                None => Variant::Normal,
            },
    {
        match highlight {
            Some(text) => OverlayType::Highlight(text),
            None => OverlayType::Normal,
        }
    }

    /// The highlight string, where the variant carries one.
    pub fn highlight(&self) -> (text: Option<&str>)
        ensures
            match text {
                Some(t) => self@ == Variant::Highlight(t@),
                None => self@ == Variant::Normal,
            },
    {
        match self {
            OverlayType::Normal => None,
            OverlayType::Highlight(text) => Some(text.as_str()),
        }
    }

    /// The overlay graphic of the variant.
    pub fn overlay_asset(&self) -> (asset: Asset)
        ensures
            asset == self@.overlay_asset(),
    {
        match self {
            OverlayType::Normal => Asset::OverlayNormal,
            OverlayType::Highlight(_) => Asset::OverlayHighlight,
        }
    }

    /// The widest the drawn caption may be.
    pub fn width_threshold(&self) -> (threshold: Length)
        ensures
            threshold == self@.width_threshold(),
            threshold.units > 0,
    {
        match self {
            OverlayType::Normal => Length::from_pixels(NORMAL_BAND),
            OverlayType::Highlight(_) => Length::from_pixels(HIGHLIGHT_BAND),
        }
    }

    /// The horizontal centre of the caption.
    pub fn anchor_x(&self) -> (x: i32)
        ensures
            x == self@.anchor_x(),
    {
        match self {
            OverlayType::Normal => NORMAL_ANCHOR_X,
            OverlayType::Highlight(_) => HIGHLIGHT_CAPTION_ANCHOR_X,
        }
    }
}

} // verus!
