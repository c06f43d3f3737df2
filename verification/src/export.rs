//! What a writer of lossless raster files is told about a decoded image.

use vstd::prelude::*;
use crate::error::{DecodeError, DecodeErrorView};
use crate::types::Format;

verus! {

/// The colour type of a raster file.
#[derive(Debug, Clone, Copy, PartialEq, Eq, Structural)]
pub enum RasterColor {
    /// One sample per pixel.
    Grayscale,
    /// Three samples per pixel.
    Rgb,
}

/// The sample depth of a raster file.
#[derive(Debug, Clone, Copy, PartialEq, Eq, Structural)]
pub enum RasterDepth {
    /// 8 bits per sample.
    Eight,
    /// 16 bits per sample.
    Sixteen,
}

/// How the pixels of an image are declared to a raster file.
#[derive(Debug, Clone, Copy, PartialEq, Eq, Structural)]
pub struct RasterLayout {
    pub color: RasterColor,
    pub depth: RasterDepth,
}

/// The layout in which an image of this format is written: grey for 1
/// channel, RGB for 3, with 8 or 16 bits for samples of 1 or 2 bytes.
///
/// Any other number of channels is `UnsupportedChannelLayout`; with a
/// supported number, any other depth is `UnsupportedBitDepth`.
pub open spec fn raster_layout_of(format: Format) -> Result<RasterLayout, DecodeErrorView> {
    if format.channels != 1 && format.channels != 3 {
        Err(DecodeErrorView::UnsupportedChannelLayout)
    } else if format.channel_depth != 1 && format.channel_depth != 2 {
        Err(DecodeErrorView::UnsupportedBitDepth)
    } else {
        Ok(
            RasterLayout {
                color: if format.channels == 3 {
                    RasterColor::Rgb
                } else {
                    RasterColor::Grayscale
                },
                depth: if format.channel_depth == 1 {
                    RasterDepth::Eight
                } else {
                    RasterDepth::Sixteen
                },
            },
        )
    }
}

/// Picks the colour type and depth under which an image is written to a
/// raster file, so that an unsupported image fails before a byte is written.
///
/// The result is the one that [`raster_layout_of`] names, failures included.
pub fn raster_layout(format: &Format) -> (r: Result<RasterLayout, DecodeError>)
    ensures
        match r {
            Ok(layout) => raster_layout_of(*format) == Ok::<RasterLayout, DecodeErrorView>(layout),
            Err(e) => raster_layout_of(*format) == Err::<RasterLayout, DecodeErrorView>(e@),
        },
{
    let color = if format.channels == 3 {
        RasterColor::Rgb
    } else if format.channels == 1 {
        RasterColor::Grayscale
    } else {
        return Err(DecodeError::UnsupportedChannelLayout);
    };
    let depth = if format.channel_depth == 1 {
        RasterDepth::Eight
    } else if format.channel_depth == 2 {
        RasterDepth::Sixteen
    } else {
        return Err(DecodeError::UnsupportedBitDepth);
    };
    Ok(RasterLayout { color, depth })
}

} // verus!
