//! The dispatcher: from an encoded image to decoded pixels, by its encoding.
//!
//! Raw and run-length streams are decoded here, baseline JPEG streams by the
//! decoder that [`decode_image`] calls. A JPEG 2000 stream is decoded by the
//! caller: the image is handed back, [`jpeg2000_rendering`] says in which
//! layout the decoded image is to be rendered, and [`finish_jpeg2000`] takes
//! the rendered pixels.

use vstd::prelude::*;
use crate::error::{DecodeError, DecodeErrorView};
use crate::jpeg::{decode_JPEG, jpeg_refused};
use crate::palette::{map_to_palette, palette_result};
use crate::rle::{decode_RLE, rle_decoded};
use crate::types::{
    EncodedImage, EncodedImageView, Encoding, Format, PhotometricInterpretation, PhotometricView,
    RawImage, RawImageView,
};

verus! {

/// The pixel layout to ask of a JPEG 2000 decoder, always in samples of one
/// byte.
#[derive(Debug, Clone, Copy, PartialEq, Eq, Structural)]
pub enum Jpeg2000Layout {
    /// One channel: luminance.
    Luma,
    /// Three channels: red, green, blue.
    Rgb,
    /// Four channels: red, green, blue, alpha.
    Rgba,
}

/// The layout in which a JPEG 2000 image of this format is decoded: 1, 3 or
/// 4 channels of one byte. Any other shape is `UnsupportedJpeg2000Output`.
pub open spec fn jpeg2000_layout_of(format: Format) -> Result<Jpeg2000Layout, DecodeErrorView> {
    if format.channel_depth == 1 && format.channels == 1 {
        Ok(Jpeg2000Layout::Luma)
    } else if format.channel_depth == 1 && format.channels == 3 {
        Ok(Jpeg2000Layout::Rgb)
    } else if format.channel_depth == 1 && format.channels == 4 {
        Ok(Jpeg2000Layout::Rgba)
    } else {
        Err(DecodeErrorView::UnsupportedJpeg2000Output)
    }
}

/// Picks the layout in which a JPEG 2000 image of this format is decoded.
///
/// Fails with `UnsupportedJpeg2000Output` exactly when the format is not 1, 3
/// or 4 channels of one byte.
pub fn jpeg2000_layout(format: &Format) -> (r: Result<Jpeg2000Layout, DecodeError>)
    ensures
        match r {
            Ok(layout) => jpeg2000_layout_of(*format) == Ok::<Jpeg2000Layout, DecodeErrorView>(
                layout,
            ),
            Err(e) => jpeg2000_layout_of(*format) == Err::<Jpeg2000Layout, DecodeErrorView>(e@),
        },
{
    if format.channel_depth != 1 {
        Err(DecodeError::UnsupportedJpeg2000Output)
    } else if format.channels == 1 {
        Ok(Jpeg2000Layout::Luma)
    } else if format.channels == 3 {
        Ok(Jpeg2000Layout::Rgb)
    } else if format.channels == 4 {
        Ok(Jpeg2000Layout::Rgba)
    } else {
        Err(DecodeError::UnsupportedJpeg2000Output)
    }
}

/// The layout in which a JPEG 2000 image is rendered once the decoder has
/// run: `ExternalDecodeError` where the decoder failed, else what
/// [`jpeg2000_layout_of`] says of the format. The failure of the decoder
/// comes first.
pub open spec fn jpeg2000_rendering_of(format: Format, decoded: bool) -> Result<
    Jpeg2000Layout,
    DecodeErrorView,
> {
    if !decoded {
        Err(DecodeErrorView::ExternalDecodeError)
    } else {
        jpeg2000_layout_of(format)
    }
}

/// Says what follows the run of a JPEG 2000 decoder on the stream of an image
/// of this format, where `decoded` tells whether the decoder succeeded.
///
/// Fails with `ExternalDecodeError` exactly when the decoder failed, and
/// otherwise with `UnsupportedJpeg2000Output` exactly when the format is not
/// 1, 3 or 4 channels of one byte. Else it gives the layout in which the
/// decoded image is to be rendered.
pub fn jpeg2000_rendering(format: &Format, decoded: bool) -> (r: Result<Jpeg2000Layout, DecodeError>)
    ensures
        match r {
            Ok(layout) => jpeg2000_rendering_of(*format, decoded) == Ok::<
                Jpeg2000Layout,
                DecodeErrorView,
            >(layout),
            Err(e) => jpeg2000_rendering_of(*format, decoded) == Err::<
                Jpeg2000Layout,
                DecodeErrorView,
            >(e@),
        },
{
    if !decoded {
        Err(DecodeError::ExternalDecodeError)
    } else {
        jpeg2000_layout(format)
    }
}

/// What [`decode_image`] leaves to be done.
#[derive(Debug, Clone, PartialEq, Eq)]
pub enum DecodeStep {
    /// Nothing: the image is decoded.
    Done(RawImage),
    /// The stream is JPEG 2000. The caller runs its decoder on the bytes of
    /// the image, asks [`jpeg2000_rendering`] for the layout, and hands the
    /// rendered pixels to [`finish_jpeg2000`].
    Jpeg2000(EncodedImage),
}

/// The mathematical value of a [`DecodeStep`].
pub enum DecodeStepView {
    Done(RawImageView),
    Jpeg2000(EncodedImageView),
}

impl View for DecodeStep {
    type V = DecodeStepView;

    open spec fn view(&self) -> DecodeStepView {
        match *self {
            DecodeStep::Done(image) => DecodeStepView::Done(image@),
            DecodeStep::Jpeg2000(encoded) => DecodeStepView::Jpeg2000(encoded@),
        }
    }
}

/// The decoded image for a decoded stream: the stream itself in the declared
/// format or, for a palette image, its colours in 3 channels of 2 bytes.
pub open spec fn finished(format: Format, photometric: PhotometricView, decoded: Seq<u8>) -> Result<
    RawImageView,
    DecodeErrorView,
> {
    match photometric {
        PhotometricView::PaletteColor(palettes) => match palette_result(
            decoded,
            palettes,
            format.channels as int,
            format.channel_depth as int,
        ) {
            Ok(mapped) => Ok(
                RawImageView {
                    format: Format { w: format.w, h: format.h, channels: 3, channel_depth: 2 },
                    bytes: mapped,
                },
            ),
            Err(e) => Err(e),
        },
        _ => Ok(RawImageView { format, bytes: decoded }),
    }
}

/// Makes the decoded image of a decoded stream.
///
/// For a palette image the samples are looked up in the tables, and the
/// result has 3 channels of 2 bytes; it fails as [`map_to_palette`] does. For
/// any other image the stream is kept as it is, in the declared format.
pub fn finish_decode(
    format: Format,
    photometric: &PhotometricInterpretation,
    decoded: Vec<u8>,
) -> (r: Result<RawImage, DecodeError>)
    ensures
        match r {
            Ok(image) => finished(format, photometric@, decoded@) == Ok::<
                RawImageView,
                DecodeErrorView,
            >(image@),
            Err(e) => finished(format, photometric@, decoded@) == Err::<
                RawImageView,
                DecodeErrorView,
            >(e@),
        },
{
    match photometric {
        PhotometricInterpretation::PaletteColor(palettes) => {
            match map_to_palette(&decoded, palettes, format.channels, format.channel_depth) {
                Ok(mapped) => Ok(
                    RawImage {
                        format: Format { w: format.w, h: format.h, channels: 3, channel_depth: 2 },
                        bytes: mapped,
                    },
                ),
                Err(e) => Err(e),
            }
        },
        _ => Ok(RawImage { format, bytes: decoded }),
    }
}

/// The mathematical value of pixels that a decoder may have returned.
pub open spec fn pixels_view(pixels: Option<Vec<u8>>) -> Option<Seq<u8>> {
    match pixels {
        Some(decoded) => Some(decoded@),
        None => None,
    }
}

/// The stream of an image, decoded as its encoding says, where `jpeg` is
/// what the JPEG decoder made of the stream: its pixels, or nothing where it
/// failed, which is `ExternalDecodeError`. Not for JPEG 2000, which is
/// decoded by the caller.
pub open spec fn decoded_stream(encoded: EncodedImageView, jpeg: Option<Seq<u8>>) -> Result<
    Seq<u8>,
    DecodeErrorView,
> {
    match encoded.encoding {
        Encoding::RAW => Ok(encoded.bytes),
        Encoding::RLE => rle_decoded(encoded.bytes),
        _ => match jpeg {
            Some(pixels) => Ok(pixels),
            None => Err(DecodeErrorView::ExternalDecodeError),
        },
    }
}

/// What decoding an image comes to, where `jpeg` is what the JPEG decoder
/// made of its stream.
///
/// A JPEG 2000 image is handed back as it is. Any other image is decoded,
/// see [`decoded_stream`], and finished, see [`finished`]; the first failure
/// is the result. Only for a JPEG image does the result depend on `jpeg`.
pub open spec fn decode_step(encoded: EncodedImageView, jpeg: Option<Seq<u8>>) -> Result<
    DecodeStepView,
    DecodeErrorView,
> {
    if encoded.encoding == Encoding::JPEG2000 {
        Ok(DecodeStepView::Jpeg2000(encoded))
    } else {
        match decoded_stream(encoded, jpeg) {
            Ok(decoded) => match finished(encoded.target_format, encoded.photometric, decoded) {
                Ok(image) => Ok(DecodeStepView::Done(image)),
                Err(e) => Err(e),
            },
            Err(e) => Err(e),
        }
    }
}

/// The mathematical value of the outcome of a decoding.
pub open spec fn outcome_view(r: Result<DecodeStep, DecodeError>) -> Result<
    DecodeStepView,
    DecodeErrorView,
> {
    match r {
        Ok(step) => Ok(step@),
        Err(e) => Err(e@),
    }
}

/// Whether `r` is an outcome of decoding `encoded`: the one that
/// [`decode_step`] gives for something that the JPEG decoder may have made of
/// the stream.
pub open spec fn decodes_to(encoded: EncodedImageView, r: Result<DecodeStep, DecodeError>) -> bool {
    exists|jpeg: Option<Seq<u8>>| outcome_view(r) == #[trigger] decode_step(encoded, jpeg)
}

/// Decoding is a function of the image: whatever two runs of
/// [`decode_image`] on the same image return has the same value, byte for
/// byte. For a baseline JPEG image it is the same as far as the JPEG
/// decoder, which is not part of this library, returns the same.
pub proof fn decoding_twice_gives_the_same(
    encoded: EncodedImageView,
    first: Result<DecodeStep, DecodeError>,
    second: Result<DecodeStep, DecodeError>,
)
    requires
        encoded.encoding != Encoding::JPEG,
        decodes_to(encoded, first),
        decodes_to(encoded, second),
    ensures
        outcome_view(first) == outcome_view(second),
{
}

/// Decodes an image, given what the JPEG decoder made of its stream.
///
/// A raw stream is taken as it is and a run-length stream is decoded by
/// [`decode_RLE`]; for a baseline JPEG stream `jpeg` holds the pixels, or
/// nothing where the decoder failed. Then the colour lookup tables are
/// applied, see [`finish_decode`]. A JPEG 2000 image is handed back
/// undecoded.
///
/// The outcome is the one that [`decode_step`] names, failures included.
pub fn decode_image_with(encoded_image: EncodedImage, jpeg: Option<Vec<u8>>) -> (r: Result<
    DecodeStep,
    DecodeError,
>)
    ensures
        outcome_view(r) == decode_step(encoded_image@, pixels_view(jpeg)),
{
    let EncodedImage { target_format, encoding, photometric, bytes } = encoded_image;
    let decoded = match encoding {
        Encoding::JPEG2000 => {
            return Ok(
                DecodeStep::Jpeg2000(
                    EncodedImage { target_format, encoding, photometric, bytes },
                ),
            );
        },
        Encoding::RAW => Ok(bytes),
        Encoding::RLE => decode_RLE(&bytes),
        Encoding::JPEG => match jpeg {
            Some(pixels) => Ok(pixels),
            None => Err(DecodeError::ExternalDecodeError),
        },
    };
    match decoded {
        Ok(decoded) => match finish_decode(target_format, &photometric, decoded) {
            Ok(image) => Ok(DecodeStep::Done(image)),
            Err(e) => Err(e),
        },
        Err(e) => Err(e),
    }
}

/// Decodes an image.
///
/// For a baseline JPEG image the stream is first handed to the JPEG decoder,
/// by [`decode_JPEG`]. The rest is done by [`decode_image_with`]: the outcome
/// is the one that [`decode_step`] names for what the decoder returned, and
/// for any other image the one that it names whatever a decoder returns. A
/// JPEG stream that is refused without the decoder, see [`jpeg_refused`],
/// gives the outcome that [`decode_step`] names for a decoder that failed.
pub fn decode_image(encoded_image: EncodedImage) -> (r: Result<DecodeStep, DecodeError>)
    ensures
        decodes_to(encoded_image@, r),
        encoded_image@.encoding == Encoding::JPEG && jpeg_refused(encoded_image@.bytes)
            ==> outcome_view(r) == decode_step(encoded_image@, None),
{
    let jpeg = match encoded_image.encoding {
        Encoding::JPEG => match decode_JPEG(&encoded_image.bytes) {
            Ok(pixels) => Some(pixels),
            Err(_) => None,
        },
        _ => None,
    };
    decode_image_with(encoded_image, jpeg)
}

/// What a JPEG 2000 image comes to once the caller's decoder has run: with
/// no pixels `ExternalDecodeError`; with pixels `UnsupportedJpeg2000Output`
/// where the format has no layout, see [`jpeg2000_layout_of`], and else the
/// finished image, see [`finished`].
pub open spec fn jpeg2000_finished(encoded: EncodedImageView, pixels: Option<Seq<u8>>) -> Result<
    RawImageView,
    DecodeErrorView,
> {
    match pixels {
        None => Err(DecodeErrorView::ExternalDecodeError),
        Some(decoded) => match jpeg2000_layout_of(encoded.target_format) {
            Err(e) => Err(e),
            Ok(_) => finished(encoded.target_format, encoded.photometric, decoded),
        },
    }
}

/// Finishes a JPEG 2000 image with what the caller's decoder made of its
/// stream: the pixels in the layout that [`jpeg2000_rendering`] asked for, or
/// `None` where the decoder failed.
///
/// Fails with `ExternalDecodeError` exactly when there are no pixels, then
/// with `UnsupportedJpeg2000Output` exactly when the format is not 1, 3 or 4
/// channels of one byte; otherwise it does what [`finish_decode`] does.
pub fn finish_jpeg2000(encoded_image: &EncodedImage, pixels: Option<Vec<u8>>) -> (r: Result<
    RawImage,
    DecodeError,
>)
    ensures
        match r {
            Ok(image) => jpeg2000_finished(encoded_image@, pixels_view(pixels)) == Ok::<
                RawImageView,
                DecodeErrorView,
            >(image@),
            Err(e) => jpeg2000_finished(encoded_image@, pixels_view(pixels)) == Err::<
                RawImageView,
                DecodeErrorView,
            >(e@),
        },
{
    match pixels {
        None => Err(DecodeError::ExternalDecodeError),
        Some(decoded) => match jpeg2000_layout(&encoded_image.target_format) {
            Err(e) => Err(e),
            Ok(_) => finish_decode(
                encoded_image.target_format,
                &encoded_image.photometric,
                decoded,
            ),
        },
    }
}

} // verus!
