//! Screenshots: the image format.
use vstd::prelude::*;

verus! {

/// The format of a screenshot.
#[derive(Debug, Clone, Copy, PartialEq, Eq, Structural)]
pub enum ImageFormat {
    Png,
    Jpeg,
    Webp,
}

impl Default for ImageFormat {
    fn default() -> (r: ImageFormat)
        ensures
            r == ImageFormat::Png,
    {
        ImageFormat::Png
    }
}

impl ImageFormat {
    /// The protocol's name of the format.
    pub open spec fn protocol_name(self) -> Seq<char> {
        match self {
            ImageFormat::Png => "png"@,
            ImageFormat::Jpeg => "jpeg"@,
            ImageFormat::Webp => "webp"@,
        }
    }

    /// The protocol's name of the format.
    pub fn as_protocol(&self) -> (r: &'static str)
        ensures
            r@ == self.protocol_name(),
    {
        match self {
            ImageFormat::Png => "png",
            ImageFormat::Jpeg => "jpeg",
            ImageFormat::Webp => "webp",
        }
    }
}

} // verus!
