//! The data that passes between the stages of the pipeline.

use vstd::prelude::*;

verus! {

/// The shape of a pixel buffer, whatever its encoding.
#[derive(Debug, Clone, Copy, PartialEq, Eq, Structural)]
pub struct Format {
    /// Width in pixels.
    pub w: u32,
    /// Height in pixels.
    pub h: u32,
    /// Samples per pixel.
    pub channels: u32,
    /// Bytes per sample.
    pub channel_depth: u32,
}

impl Format {
    /// What holds of the format of every buffer that a palette lookup or a
    /// normalization has produced: samples of 1 or 2 bytes, in 1, 3 or 4
    /// channels.
    pub open spec fn is_normalized(self) -> bool {
        &&& self.channel_depth == 1 || self.channel_depth == 2
        &&& self.channels == 1 || self.channels == 3 || self.channels == 4
    }
}

/// How the byte stream of an image is encoded. Chosen once, from the
/// transfer syntax of the file.
#[derive(Debug, Clone, Copy, PartialEq, Eq, Structural)]
pub enum Encoding {
    /// Explicit little-endian samples, not compressed.
    RAW,
    /// Run-length encoded segments.
    RLE,
    /// Baseline JPEG.
    JPEG,
    /// JPEG 2000.
    JPEG2000,
}

/// The three colour lookup tables of a palette image, each indexed by the
/// value of a pixel.
#[derive(Debug, Clone, PartialEq, Eq)]
pub struct Palettes {
    pub red: Vec<u16>,
    pub green: Vec<u16>,
    pub blue: Vec<u16>,
}

/// The mathematical value of [`Palettes`].
pub struct PalettesView {
    pub red: Seq<u16>,
    pub green: Seq<u16>,
    pub blue: Seq<u16>,
}

impl View for Palettes {
    type V = PalettesView;

    open spec fn view(&self) -> PalettesView {
        PalettesView { red: self.red@, green: self.green@, blue: self.blue@ }
    }
}

/// The colour model of the decoded samples. Only `PaletteColor` changes what
/// decoding does: its samples are indices into the lookup tables.
#[derive(Debug, Clone, PartialEq, Eq)]
pub enum PhotometricInterpretation {
    /// `RGB`.
    RGB,
    /// `PALETTE COLOR`, with its lookup tables.
    PaletteColor(Palettes),
    /// `YBR_FULL_422`.
    YbrFull422,
    /// `MONOCHROME2`.
    Monochrome2,
    /// Any other value. The samples are taken as they are.
    Other,
}

/// The mathematical value of a [`PhotometricInterpretation`].
pub enum PhotometricView {
    RGB,
    PaletteColor(PalettesView),
    YbrFull422,
    Monochrome2,
    Other,
}

impl View for PhotometricInterpretation {
    type V = PhotometricView;

    open spec fn view(&self) -> PhotometricView {
        match *self {
            PhotometricInterpretation::RGB => PhotometricView::RGB,
            PhotometricInterpretation::PaletteColor(palettes) => PhotometricView::PaletteColor(
                palettes@,
            ),
            PhotometricInterpretation::YbrFull422 => PhotometricView::YbrFull422,
            PhotometricInterpretation::Monochrome2 => PhotometricView::Monochrome2,
            PhotometricInterpretation::Other => PhotometricView::Other,
        }
    }
}

/// An image as it was taken from the file: the byte stream still encoded,
/// with what is needed to decode it.
#[derive(Debug, Clone, PartialEq, Eq)]
pub struct EncodedImage {
    /// The shape that the file declares for the decoded pixels.
    pub target_format: Format,
    pub encoding: Encoding,
    pub photometric: PhotometricInterpretation,
    /// The encoded byte stream.
    pub bytes: Vec<u8>,
}

/// The mathematical value of an [`EncodedImage`].
pub struct EncodedImageView {
    pub target_format: Format,
    pub encoding: Encoding,
    pub photometric: PhotometricView,
    pub bytes: Seq<u8>,
}

impl View for EncodedImage {
    type V = EncodedImageView;

    open spec fn view(&self) -> EncodedImageView {
        EncodedImageView {
            target_format: self.target_format,
            encoding: self.encoding,
            photometric: self.photometric@,
            bytes: self.bytes@,
        }
    }
}

/// A decoded image: pixels in row-major order, the samples of a pixel next
/// to each other.
#[derive(Debug, Clone, PartialEq, Eq)]
pub struct RawImage {
    pub format: Format,
    pub bytes: Vec<u8>,
}

/// The mathematical value of a [`RawImage`].
pub struct RawImageView {
    pub format: Format,
    pub bytes: Seq<u8>,
}

impl View for RawImage {
    type V = RawImageView;

    open spec fn view(&self) -> RawImageView {
        RawImageView { format: self.format, bytes: self.bytes@ }
    }
}

} // verus!
