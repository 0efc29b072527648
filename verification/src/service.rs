//! What the surrounding web service decides before and after a render: where
//! it listens, where the background comes from, and which variant is drawn.

use vstd::prelude::*;
use crate::overlay::{Asset, OverlayType, Variant};

verus! {

/// The port the service listens on.
pub const PORT: u16 = 14400;

/// How the service is launched.
#[derive(Clone, Copy, Debug, PartialEq, Eq)]
pub struct Launch {
    /// The port to listen on.
    pub port: u16,
    /// The path under which the render route is mounted.
    pub mount: &'static str,
}

/// The launch settings of the service: port 14400, routes mounted at the
/// root.
pub fn rocket() -> (launch: Launch)
    ensures
        launch.port == PORT,
        launch.mount@ == "/"@,
{
    Launch { port: PORT, mount: "/" }
}

/// Where the background image of a card comes from.
#[derive(Debug, PartialEq, Eq)]
pub enum BackgroundSource {
    /// Retrieved from the location the caller named.
    Remote(String),
    /// The bundled asset.
    Bundled(Asset),
}

/// What a [`BackgroundSource`] stands for in contracts.
pub enum Origin {
    Remote(Seq<char>),
    Bundled(Asset),
}

impl View for BackgroundSource {
    type V = Origin;

    open spec fn view(&self) -> Origin {
        match self {
            BackgroundSource::Remote(location) => Origin::Remote(location@),
            BackgroundSource::Bundled(asset) => Origin::Bundled(*asset),
        }
    }
}

/// One request for a card.
#[derive(Debug, PartialEq, Eq)]
pub struct Request {
    /// Where the background comes from.
    pub background: BackgroundSource,
    /// The caption.
    pub caption: String,
    /// The variant to draw.
    pub overlay: OverlayType,
}

impl Request {
    /// The request that the query parameters describe: `img` names a remote
    /// background, and without it the bundled default is used; `ttl` is the
    /// caption; `hl`, where given, selects the highlight variant and is its
    /// highlight string.
    pub fn new(img: Option<String>, ttl: String, hl: Option<String>) -> (request: Request)
        ensures
            request.background@ == match img {
                Some(location) => Origin::Remote(location@),
                None => Origin::Bundled(Asset::DefaultBackground),
            },
            request.caption@ == ttl@,
            request.overlay@ == match hl {
                Some(text) => Variant::Highlight(text@),
                None => Variant::Normal,
            },
    {
        let background = match img {
            Some(location) => BackgroundSource::Remote(location),
            None => BackgroundSource::Bundled(Asset::DefaultBackground),
        };
        Request { background, caption: ttl, overlay: OverlayType::from_highlight(hl) }
    }
}

} // verus!
