//! What can end a render, and whose fault it is.

use vstd::prelude::*;
use crate::overlay::Asset;

verus! {

/// A failure that ends one render. None is retried, and none outlives the
/// render it ended.
#[derive(Clone, Copy, Debug, PartialEq, Eq, Structural)]
pub enum RenderError {
    /// A required bundled asset is absent.
    AssetMissing(Asset),
    /// The background bytes are not a decodable image.
    ImageDecode,
    /// A bundled font file does not parse into a usable typeface.
    FontLoad(Asset),
    /// The finished canvas could not be serialised.
    Encode,
}

/// Who has to act on a failure.
#[derive(Clone, Copy, Debug, PartialEq, Eq, Structural)]
pub enum Fault {
    /// The caller handed in bad input; another input may succeed.
    Input,
    /// The deployment is defective; no input will succeed until it is mended.
    Deployment,
    /// This one render could not be finished.
    Render,
}

impl RenderError {
    /// Who has to act on this failure.
    pub open spec fn spec_fault(self) -> Fault {
        match self {
            RenderError::AssetMissing(_) => Fault::Deployment,
            RenderError::ImageDecode => Fault::Input,
            RenderError::FontLoad(_) => Fault::Deployment,
            RenderError::Encode => Fault::Render,
        }
    }

    /// Who has to act on this failure.
    #[verifier::when_used_as_spec(spec_fault)]
    pub fn fault(self) -> (fault: Fault)
        ensures
            fault == self.spec_fault(),
    {
        match self {
            RenderError::AssetMissing(_) => Fault::Deployment,
            RenderError::ImageDecode => Fault::Input,
            RenderError::FontLoad(_) => Fault::Deployment,
            RenderError::Encode => Fault::Render,
        }
    }
}

/// The bytes of a bundled asset as the bundle answered for it: the bytes
/// where it holds the asset, and the failure that names the asset where it
/// does not.
pub fn require_asset(asset: Asset, found: Option<Vec<u8>>) -> (bytes: Result<Vec<u8>, RenderError>)
    ensures
        bytes == match found {
            Some(data) => Ok::<Vec<u8>, RenderError>(data),
            None => Err::<Vec<u8>, RenderError>(RenderError::AssetMissing(asset)),
        },
{
    match found {
        Some(data) => Ok(data),
        None => Err(RenderError::AssetMissing(asset)),
    }
}

} // verus!
