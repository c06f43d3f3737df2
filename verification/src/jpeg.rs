//! Baseline JPEG streams, decoded by the `jpeg-decoder` crate.

use vstd::prelude::*;
use crate::error::{DecodeError, DecodeErrorView};

verus! {

/// The greatest width and the greatest height, in pixels, of a frame with
/// which a stream is handed to the decoder. The decoder counts blocks of 8
/// pixels in 16 bits, along both sides of the frame, and above this size a
/// count times 8 can leave that range.
pub const MAX_JPEG_SIDE: u16 = 65528;

/// The error type of `jpeg-decoder`. Nothing is read from it.
#[verifier::external_type_specification]
#[verifier::external_body]
pub struct ExJpegError(jpeg_decoder::Error);

/// Whether a stream begins with the start-of-image marker of JPEG, the
/// bytes `FF D8`.
pub open spec fn starts_with_soi(stream: Seq<u8>) -> bool {
    stream.len() >= 2 && stream[0] == 0xFF && stream[1] == 0xD8
}

/// The width and the height that `jpeg-decoder` reads from the frame header
/// of a stream, or `None` where it reads no frame header. Nothing else is
/// known of it here.
pub uninterp spec fn jpeg_frame_size(stream: Seq<u8>) -> Option<(u16, u16)>;

/// Whether the decoder can be given a stream with this frame size: any
/// stream but one whose frame is wider or higher than [`MAX_JPEG_SIDE`].
pub open spec fn frame_fits(size: Option<(u16, u16)>) -> bool {
    size matches Some(frame) ==> frame.0 <= MAX_JPEG_SIDE && frame.1 <= MAX_JPEG_SIDE
}

/// Whether a stream is refused whatever the decoder would make of it: it
/// does not begin with the start-of-image marker, or its frame is too wide
/// or too high for the decoder.
pub open spec fn jpeg_refused(stream: Seq<u8>) -> bool {
    !starts_with_soi(stream) || !frame_fits(jpeg_frame_size(stream))
}

/// Calls `jpeg_decoder::Decoder::read_info` on a decoder that reads `stream`
/// and then `Decoder::info`, of which it keeps the width and the height.
///
/// Not verified. The contract claims that what is read is a function of the
/// bytes of the stream, to which [`jpeg_frame_size`] gives a name: the
/// decoder walks the segments of the stream up to the frame header and reads
/// nothing else.
#[verifier::external_body]
fn jpeg_read_size(stream: &[u8]) -> (r: Option<(u16, u16)>)
    ensures
        r == jpeg_frame_size(stream@),
{
    let mut decoder = jpeg_decoder::Decoder::new(stream);
    match decoder.read_info() {
        Ok(()) => decoder.info().map(|info| (info.width, info.height)),
        Err(_) => None,
    }
}

/// Calls `jpeg_decoder::Decoder::decode` on a decoder that reads `stream`.
///
/// Not verified. A stream whose frame is wider or higher than
/// [`MAX_JPEG_SIDE`] is left out: on such a stream the decoder can overflow
/// its count of pixels along that side. Nothing is claimed of what the call
/// returns. The pixels are not a function of the stream alone: the decoder
/// hands out samples of more than 8 bits in the byte order of the machine,
/// and it fails where it cannot start a thread.
#[verifier::external_body]
fn jpeg_decode(stream: &[u8]) -> (r: Result<Vec<u8>, jpeg_decoder::Error>)
    requires
        frame_fits(jpeg_frame_size(stream@)),
{
    jpeg_decoder::Decoder::new(stream).decode()
}

/// Decides whether a stream with this frame size is handed to the decoder.
pub fn frame_is_accepted(size: Option<(u16, u16)>) -> (r: bool)
    ensures
        r == frame_fits(size),
{
    match size {
        Some((width, height)) => width <= MAX_JPEG_SIDE && height <= MAX_JPEG_SIDE,
        None => true,
    }
}

/// Decodes a baseline JPEG stream.
///
/// A stream that does not begin with the start-of-image marker is refused.
/// Then the frame header is read, and a stream whose frame is wider or
/// higher than [`MAX_JPEG_SIDE`] is refused. Any other stream is handed to
/// the decoder, and the pixels are those that it returns. Every failure, of
/// the decoder or by a refusal, is `ExternalDecodeError`; of any stream that
/// is not refused the decoder decides.
#[allow(non_snake_case)]
pub fn decode_JPEG(bytes: &Vec<u8>) -> (r: Result<Vec<u8>, DecodeError>)
    ensures
        r matches Err(e) ==> e@ == DecodeErrorView::ExternalDecodeError,
        jpeg_refused(bytes@) ==> r is Err,
{
    if bytes.len() < 2 || bytes[0] != 0xFF || bytes[1] != 0xD8 {
        return Err(DecodeError::ExternalDecodeError);
    }
    if !frame_is_accepted(jpeg_read_size(bytes.as_slice())) {
        return Err(DecodeError::ExternalDecodeError);
    }
    match jpeg_decode(bytes.as_slice()) {
        Ok(pixels) => Ok(pixels),
        Err(_) => Err(DecodeError::ExternalDecodeError),
    }
}

} // verus!
