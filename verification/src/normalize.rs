//! The pixel format normalizer: any decoded image to the layout of a display
//! surface, four channels of one byte.

use vstd::prelude::*;
use crate::error::{DecodeError, DecodeErrorView};
use crate::types::{Format, RawImage, RawImageView};

verus! {

/// The value of the 16-bit sample `k` of `bytes`, low byte first.
pub open spec fn le_sample(bytes: Seq<u8>, k: int) -> int {
    bytes[2 * k] + 256 * bytes[2 * k + 1]
}

/// Every whole 16-bit sample of `bytes` cut down to 8 bits: the sample
/// shifted right by 8, which drops its low byte without rounding.
pub open spec fn high_bytes(bytes: Seq<u8>) -> Seq<u8> {
    Seq::new((bytes.len() / 2) as nat, |k: int| (le_sample(bytes, k) / 256) as u8)
}

/// The samples of a buffer as single bytes, for a depth of 1 or 2 bytes.
pub open spec fn samples_8bit(bytes: Seq<u8>, depth: int) -> Seq<u8> {
    if depth == 1 {
        bytes
    } else {
        high_bytes(bytes)
    }
}

/// Three-channel pixels laid out for display: for each whole pixel its third,
/// second and first sample, then 255.
pub open spec fn bgra_from_rgb(samples: Seq<u8>) -> Seq<u8> {
    Seq::new(
        (4 * (samples.len() / 3)) as nat,
        |j: int|
            if j % 4 == 3 {
                255u8
            } else {
                samples[3 * (j / 4) + 2 - j % 4]
            },
    )
}

/// Grey pixels laid out for display: for each pixel its sample three times,
/// then 255.
pub open spec fn bgra_from_gray(samples: Seq<u8>) -> Seq<u8> {
    Seq::new(
        (4 * samples.len()) as nat,
        |j: int|
            if j % 4 == 3 {
                255u8
            } else {
                samples[j / 4]
            },
    )
}

/// Whether an image of this format can be laid out for display: 1 or 3
/// channels, of 1 or 2 bytes.
pub open spec fn displayable(format: Format) -> bool {
    &&& format.channel_depth == 1 || format.channel_depth == 2
    &&& format.channels == 1 || format.channels == 3
}

/// The image laid out for display, or `UnsupportedChannelLayout`.
pub open spec fn normalized(image: RawImageView) -> Result<RawImageView, DecodeErrorView> {
    if !displayable(image.format) {
        Err(DecodeErrorView::UnsupportedChannelLayout)
    } else {
        let samples = samples_8bit(image.bytes, image.format.channel_depth as int);
        Ok(
            RawImageView {
                format: Format {
                    w: image.format.w,
                    h: image.format.h,
                    channels: 4,
                    channel_depth: 1,
                },
                bytes: if image.format.channels == 3 {
                    bgra_from_rgb(samples)
                } else {
                    bgra_from_gray(samples)
                },
            },
        )
    }
}

/// Cutting a 16-bit sample down to 8 bits keeps its high byte, the second of
/// its two bytes: for the bytes `0x34, 0x12` of `0x1234` that is `0x12`. It
/// is the sample shifted right by 8.
pub proof fn high_byte_is_kept(bytes: Seq<u8>, k: int)
    requires
        0 <= k < bytes.len() / 2,
    ensures
        high_bytes(bytes)[k] == bytes[2 * k + 1],
        high_bytes(bytes)[k] == (le_sample(bytes, k) as u16) >> 8,
{
    let lo: u8 = bytes[2 * k];
    let hi: u8 = bytes[2 * k + 1];
    let sample: u16 = le_sample(bytes, k) as u16;
    assert(sample == lo as u16 + 256 * (hi as u16));
    assert(sample >> 8 == sample / 256) by (bit_vector);
}

/// In the display layout, the three-channel pixel `p` with samples `(a, b, c)`
/// stands as `(c, b, a, 255)`.
pub proof fn rgb_pixel_is_reversed(samples: Seq<u8>, p: int)
    requires
        0 <= p < samples.len() / 3,
    ensures
        bgra_from_rgb(samples).len() == 4 * (samples.len() / 3),
        bgra_from_rgb(samples)[4 * p] == samples[3 * p + 2],
        bgra_from_rgb(samples)[4 * p + 1] == samples[3 * p + 1],
        bgra_from_rgb(samples)[4 * p + 2] == samples[3 * p],
        bgra_from_rgb(samples)[4 * p + 3] == 255,
{
}

/// In the display layout, the grey pixel `p` with sample `v` stands as
/// `(v, v, v, 255)`.
pub proof fn gray_pixel_is_replicated(samples: Seq<u8>, p: int)
    requires
        0 <= p < samples.len(),
    ensures
        bgra_from_gray(samples).len() == 4 * samples.len(),
        bgra_from_gray(samples)[4 * p] == samples[p],
        bgra_from_gray(samples)[4 * p + 1] == samples[p],
        bgra_from_gray(samples)[4 * p + 2] == samples[p],
        bgra_from_gray(samples)[4 * p + 3] == 255,
{
}

/// Cuts every whole 16-bit sample down to its high byte.
fn take_high_bytes(bytes: &Vec<u8>) -> (r: Vec<u8>)
    ensures
        r@ == high_bytes(bytes@),
{
    let count: usize = bytes.len() / 2;
    let mut out: Vec<u8> = Vec::new();
    let mut k: usize = 0;
    while k < count
        invariant
            k <= count,
            2 * count <= bytes.len(),
            count == bytes@.len() / 2,
            out@.len() == k,
            forall|j: int| 0 <= j < k ==> out@[j] == (le_sample(bytes@, j) / 256) as u8,
        decreases count - k,
    {
        out.push(bytes[2 * k + 1]);
        k = k + 1;
    }
    assert(out@ =~= high_bytes(bytes@));
    out
}

/// Lays an image out for a display surface: four channels of one byte.
///
/// Samples of 2 bytes are first cut down to their high byte. A pixel of three
/// samples `(a, b, c)` becomes `(c, b, a, 255)`; a pixel of one sample `v`
/// becomes `(v, v, v, 255)`. Bytes behind the last whole pixel are dropped.
/// The result keeps the width and height, and declares 4 channels of depth 1.
///
/// Fails with `UnsupportedChannelLayout` exactly when the image has neither 1
/// nor 3 channels, or samples of neither 1 nor 2 bytes.
#[allow(non_snake_case)]
pub fn convert_to_BGRA8888(image: &RawImage) -> (r: Result<RawImage, DecodeError>)
    ensures
        match r {
            Ok(converted) => normalized(image@) == Ok::<RawImageView, DecodeErrorView>(
                converted@,
            ),
            Err(e) => normalized(image@) == Err::<RawImageView, DecodeErrorView>(e@),
        },
        r matches Ok(converted) ==> converted.format.is_normalized(),
{
    let channels: u32 = image.format.channels;
    let depth: u32 = image.format.channel_depth;
    if depth != 1 && depth != 2 {
        return Err(DecodeError::UnsupportedChannelLayout);
    }
    if channels != 1 && channels != 3 {
        return Err(DecodeError::UnsupportedChannelLayout);
    }
    let cut: Vec<u8>;
    let samples: &Vec<u8> = if depth == 1 {
        &image.bytes
    } else {
        cut = take_high_bytes(&image.bytes);
        &cut
    };
    let mut out: Vec<u8> = Vec::new();
    if channels == 3 {
        let count: usize = samples.len() / 3;
        let mut p: usize = 0;
        while p < count
            invariant
                p <= count,
                3 * count <= samples.len(),
                count == samples@.len() / 3,
                out@.len() == 4 * p,
                forall|j: int| 0 <= j < 4 * p ==> out@[j] == bgra_from_rgb(samples@)[j],
            decreases count - p,
        {
            out.push(samples[3 * p + 2]);
            out.push(samples[3 * p + 1]);
            out.push(samples[3 * p]);
            out.push(255);
            p = p + 1;
        }
        assert(out@ =~= bgra_from_rgb(samples@));
    } else {
        let count: usize = samples.len();
        let mut p: usize = 0;
        while p < count
            invariant
                p <= count,
                count == samples.len(),
                out@.len() == 4 * p,
                forall|j: int| 0 <= j < 4 * p ==> out@[j] == bgra_from_gray(samples@)[j],
            decreases count - p,
        {
            out.push(samples[p]);
            out.push(samples[p]);
            out.push(samples[p]);
            out.push(255);
            p = p + 1;
        }
        assert(out@ =~= bgra_from_gray(samples@));
    }
    Ok(
        RawImage {
            format: Format { w: image.format.w, h: image.format.h, channels: 4, channel_depth: 1 },
            bytes: out,
        },
    )
}

} // verus!
