//! Batch image retrieval core: parsing URL lists, classifying HTTP
//! content types, deriving output file names, and driving one download
//! per URL while collecting an ordered status log.
//!
//! Network and file-system effects stay outside this crate; the library
//! receives their outcomes as plain values and decides every step.

use vstd::prelude::*;

pub mod names;
pub mod parse;
pub mod session;
pub mod status;
pub mod text;

verus! {

/// The closed set of image formats the retriever can store, plus a
/// marker for everything it cannot.
#[derive(Clone, Copy, PartialEq, Eq, Structural, Debug)]
pub enum ImageType {
    Jpeg,
    Png,
    Tiff,
    Other,
}

impl ImageType {
    /// A format the retriever is willing to download and write.
    pub open spec fn is_supported(self) -> bool {
        !(self is Other)
    }

    /// Run-time view of `is_supported`.
    pub fn supported(&self) -> (b: bool)
        ensures
            b == self.is_supported(),
    {
        !matches!(self, ImageType::Other)
    }
}

/// The image kind a content-type header value names: an exact,
/// case-sensitive match against the three supported media types;
/// everything else is `Other`.
pub open spec fn classify_spec(content_type: Seq<char>) -> ImageType {
    if content_type == "image/jpeg"@ {
        ImageType::Jpeg
    } else if content_type == "image/png"@ {
        ImageType::Png
    } else if content_type == "image/tiff"@ {
        ImageType::Tiff
    } else {
        ImageType::Other
    }
}

/// Maps a response's content-type header value to the image kind it
/// names, or `Other` for any value outside the fixed table.
pub fn classify(content_type: &str) -> (k: ImageType)
    ensures
        k == classify_spec(content_type@),
{
    if text::str_eq(content_type, "image/jpeg") {
        ImageType::Jpeg
    } else if text::str_eq(content_type, "image/png") {
        ImageType::Png
    } else if text::str_eq(content_type, "image/tiff") {
        ImageType::Tiff
    } else {
        ImageType::Other
    }
}

} // verus!
