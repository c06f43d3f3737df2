//! The failures of the decoding pipeline.

use vstd::prelude::*;
use vstd::string::StringExecFns;

verus! {

/// Why an image could not be extracted, decoded or normalized.
///
/// Every stage returns the first failure it meets; none of them is fatal to
/// the process.
#[derive(Debug, Clone, PartialEq, Eq)]
pub enum DecodeError {
    /// A required element is absent from the object.
    MissingAttribute,
    /// An element does not hold the type of value that is read from it.
    TypeMismatch,
    /// The bits allocated per sample are not a whole number of bytes.
    UnsupportedBitDepth,
    /// The transfer syntax is none of those that can be decoded. Holds the
    /// identifier, without its trailing NUL padding.
    UnsupportedTransferSyntax(String),
    /// The pixel data is split over more than one fragment.
    MultiFragmentUnsupported,
    /// A colour lookup table is absent, or has no entry for a pixel's index.
    MissingPaletteData,
    /// A colour lookup table is not a sequence of 16-bit integers.
    UnexpectedPaletteType,
    /// The header of a run-length encoded frame cannot be used.
    MalformedHeader,
    /// A decoder outside this library rejected the stream.
    ExternalDecodeError,
    /// A JPEG 2000 image is asked for in a shape other than 1, 3 or 4
    /// channels of one byte.
    UnsupportedJpeg2000Output,
    /// A palette lookup is asked for on pixels of more than one sample.
    PaletteRequiresSingleChannel,
    /// A palette lookup is asked for on samples of neither 1 nor 2 bytes.
    UnsupportedPaletteBitDepth,
    /// The pixel layout is none of those that can be normalized or exported.
    UnsupportedChannelLayout,
}

/// The mathematical value of a [`DecodeError`].
pub enum DecodeErrorView {
    MissingAttribute,
    TypeMismatch,
    UnsupportedBitDepth,
    UnsupportedTransferSyntax(Seq<char>),
    MultiFragmentUnsupported,
    MissingPaletteData,
    UnexpectedPaletteType,
    MalformedHeader,
    ExternalDecodeError,
    UnsupportedJpeg2000Output,
    PaletteRequiresSingleChannel,
    UnsupportedPaletteBitDepth,
    UnsupportedChannelLayout,
}

impl View for DecodeError {
    type V = DecodeErrorView;

    open spec fn view(&self) -> DecodeErrorView {
        match *self {
            DecodeError::MissingAttribute => DecodeErrorView::MissingAttribute,
            DecodeError::TypeMismatch => DecodeErrorView::TypeMismatch,
            DecodeError::UnsupportedBitDepth => DecodeErrorView::UnsupportedBitDepth,
            DecodeError::UnsupportedTransferSyntax(uid) => DecodeErrorView::UnsupportedTransferSyntax(
                uid@,
            ),
            DecodeError::MultiFragmentUnsupported => DecodeErrorView::MultiFragmentUnsupported,
            DecodeError::MissingPaletteData => DecodeErrorView::MissingPaletteData,
            DecodeError::UnexpectedPaletteType => DecodeErrorView::UnexpectedPaletteType,
            DecodeError::MalformedHeader => DecodeErrorView::MalformedHeader,
            DecodeError::ExternalDecodeError => DecodeErrorView::ExternalDecodeError,
            DecodeError::UnsupportedJpeg2000Output => DecodeErrorView::UnsupportedJpeg2000Output,
            DecodeError::PaletteRequiresSingleChannel => DecodeErrorView::PaletteRequiresSingleChannel,
            DecodeError::UnsupportedPaletteBitDepth => DecodeErrorView::UnsupportedPaletteBitDepth,
            DecodeError::UnsupportedChannelLayout => DecodeErrorView::UnsupportedChannelLayout,
        }
    }
}

/// The words in which a failure is reported.
pub open spec fn message_of(e: DecodeErrorView) -> Seq<char> {
    match e {
        DecodeErrorView::MissingAttribute => "A required attribute is missing"@,
        DecodeErrorView::TypeMismatch => "An attribute holds a value of an unexpected type"@,
        DecodeErrorView::UnsupportedBitDepth => "Unsupported bit depth"@,
        DecodeErrorView::UnsupportedTransferSyntax(uid) => "Unhandled transfer syntax: "@ + uid,
        DecodeErrorView::MultiFragmentUnsupported => "Pixel data in several fragments is not supported"@,
        DecodeErrorView::MissingPaletteData => "Missing palette data element"@,
        DecodeErrorView::UnexpectedPaletteType => "Unexpected palette data type"@,
        DecodeErrorView::MalformedHeader => "RLE: malformed header"@,
        DecodeErrorView::ExternalDecodeError => "The decoder rejected the pixel data"@,
        DecodeErrorView::UnsupportedJpeg2000Output => "JPEG2000 output is unsupported"@,
        DecodeErrorView::PaletteRequiresSingleChannel => "A palette needs pixels of a single sample"@,
        DecodeErrorView::UnsupportedPaletteBitDepth => "Unsupported bit depth (1 and 2 supported)"@,
        DecodeErrorView::UnsupportedChannelLayout => "Unsupported channel layout"@,
    }
}

impl DecodeError {
    /// The failure in words, for a reader.
    pub fn message(&self) -> (r: String)
        ensures
            r@ == message_of(self@),
    {
        match self {
            DecodeError::MissingAttribute => String::from_str("A required attribute is missing"),
            DecodeError::TypeMismatch => String::from_str(
                "An attribute holds a value of an unexpected type",
            ),
            DecodeError::UnsupportedBitDepth => String::from_str("Unsupported bit depth"),
            DecodeError::UnsupportedTransferSyntax(uid) => String::from_str(
                "Unhandled transfer syntax: ",
            ).concat(uid.as_str()),
            DecodeError::MultiFragmentUnsupported => String::from_str(
                "Pixel data in several fragments is not supported",
            ),
            DecodeError::MissingPaletteData => String::from_str("Missing palette data element"),
            DecodeError::UnexpectedPaletteType => String::from_str("Unexpected palette data type"),
            DecodeError::MalformedHeader => String::from_str("RLE: malformed header"),
            DecodeError::ExternalDecodeError => String::from_str(
                "The decoder rejected the pixel data",
            ),
            DecodeError::UnsupportedJpeg2000Output => String::from_str(
                "JPEG2000 output is unsupported",
            ),
            DecodeError::PaletteRequiresSingleChannel => String::from_str(
                "A palette needs pixels of a single sample",
            ),
            DecodeError::UnsupportedPaletteBitDepth => String::from_str(
                "Unsupported bit depth (1 and 2 supported)",
            ),
            DecodeError::UnsupportedChannelLayout => String::from_str("Unsupported channel layout"),
        }
    }
}

} // verus!
