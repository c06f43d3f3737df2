//! The attribute extractor: from a parsed object to the encoded image.

use vstd::prelude::*;
use vstd::slice::slice_to_vec;
use vstd::string::StringExecFns;
use crate::decoding::{decode_image, decode_step, outcome_view, DecodeStep, DecodeStepView};
use crate::error::{DecodeError, DecodeErrorView};
use crate::jpeg::jpeg_refused;
use crate::object::{
    Dicom, DicomView, Tag, Value, ValueView, BITS_ALLOCATED, BLUE_PALETTE, COLUMNS, GREEN_PALETTE,
    PHOTOMETRIC_INTERPRETATION, PIXEL_DATA, RED_PALETTE, ROWS, SAMPLES_PER_PIXEL,
};
use crate::text::{strip_whitespace, trim_trailing_nuls, without_trailing_nuls, without_whitespace};
use crate::types::{
    EncodedImage, EncodedImageView, Encoding, Format, Palettes, PalettesView,
    PhotometricInterpretation, PhotometricView,
};

verus! {

/// The encoding that a transfer syntax identifier names, if it is one of the
/// four that are decoded. The match is exact.
pub open spec fn encoding_of(uid: Seq<char>) -> Option<Encoding> {
    if uid == "1.2.840.10008.1.2.1"@ {
        Some(Encoding::RAW)
    } else if uid == "1.2.840.10008.1.2.4.50"@ {
        Some(Encoding::JPEG)
    } else if uid == "1.2.840.10008.1.2.4.90"@ {
        Some(Encoding::JPEG2000)
    } else if uid == "1.2.840.10008.1.2.5"@ {
        Some(Encoding::RLE)
    } else {
        None
    }
}

/// What a transfer syntax identifier comes to, once the NUL padding is off
/// its end: its encoding, or `UnsupportedTransferSyntax` with the identifier.
pub open spec fn encoding_result(uid: Seq<char>) -> Result<Encoding, DecodeErrorView> {
    match encoding_of(without_trailing_nuls(uid)) {
        Some(encoding) => Ok(encoding),
        None => Err(DecodeErrorView::UnsupportedTransferSyntax(without_trailing_nuls(uid))),
    }
}

/// Whether two texts hold the same characters.
fn same_text(a: &str, b: &str) -> (r: bool)
    ensures
        r == (a@ == b@),
{
    let a = a.to_owned();
    let b = b.to_owned();
    a.eq(&b)
}

/// Maps a transfer syntax identifier to the encoding of the pixel data.
///
/// NUL padding at the end of the identifier is ignored. Every identifier but
/// the four of [`encoding_of`] fails with `UnsupportedTransferSyntax`, which
/// holds the identifier without its padding.
pub fn encoding_from_uid(uid: &str) -> (r: Result<Encoding, DecodeError>)
    ensures
        match r {
            Ok(encoding) => encoding_result(uid@) == Ok::<Encoding, DecodeErrorView>(encoding),
            Err(e) => encoding_result(uid@) == Err::<Encoding, DecodeErrorView>(e@),
        },
{
    let uid = trim_trailing_nuls(uid);
    if same_text(uid, "1.2.840.10008.1.2.1") {
        Ok(Encoding::RAW)
    } else if same_text(uid, "1.2.840.10008.1.2.4.50") {
        Ok(Encoding::JPEG)
    } else if same_text(uid, "1.2.840.10008.1.2.4.90") {
        Ok(Encoding::JPEG2000)
    } else if same_text(uid, "1.2.840.10008.1.2.5") {
        Ok(Encoding::RLE)
    } else {
        Err(DecodeError::UnsupportedTransferSyntax(String::from_str(uid)))
    }
}

/// The first number of a value that holds integers.
pub open spec fn first_integer(value: ValueView) -> Option<int> {
    match value {
        ValueView::Bytes(bytes) if bytes.len() > 0 => Some(bytes[0] as int),
        ValueView::Words(words) if words.len() > 0 => Some(words[0] as int),
        ValueView::Integers(integers) if integers.len() > 0 => Some(integers[0] as int),
        _ => None,
    }
}

/// The integer attribute `tag` of an object: `MissingAttribute` without the
/// element, `TypeMismatch` where its value does not start with an integer
/// that fits 32 bits without sign.
pub open spec fn integer_attribute(object: DicomView, tag: Tag) -> Result<u32, DecodeErrorView> {
    if !object.elements.contains_key(tag) {
        Err(DecodeErrorView::MissingAttribute)
    } else {
        match first_integer(object.elements[tag]) {
            Some(n) if 0 <= n <= u32::MAX => Ok(n as u32),
            _ => Err(DecodeErrorView::TypeMismatch),
        }
    }
}

/// Reads an integer attribute.
fn read_integer(dicom: &Dicom, tag: Tag) -> (r: Result<u32, DecodeError>)
    ensures
        match r {
            Ok(n) => integer_attribute(dicom@, tag) == Ok::<u32, DecodeErrorView>(n),
            Err(e) => integer_attribute(dicom@, tag) == Err::<u32, DecodeErrorView>(e@),
        },
{
    match dicom.find(tag) {
        None => Err(DecodeError::MissingAttribute),
        Some(Value::Bytes(bytes)) => {
            if bytes.len() > 0 {
                Ok(bytes[0] as u32)
            } else {
                Err(DecodeError::TypeMismatch)
            }
        },
        Some(Value::Words(words)) => {
            if words.len() > 0 {
                Ok(words[0] as u32)
            } else {
                Err(DecodeError::TypeMismatch)
            }
        },
        Some(Value::Integers(integers)) => {
            if integers.len() > 0 && 0 <= integers[0] && integers[0] <= 0xFFFF_FFFF {
                Ok(integers[0] as u32)
            } else {
                Err(DecodeError::TypeMismatch)
            }
        },
        Some(_) => Err(DecodeError::TypeMismatch),
    }
}

/// The encoded pixel bytes of an object: the pixel data where it is a
/// sequence of bytes, its one fragment where it is encapsulated.
///
/// `MissingAttribute` without pixel data, or with no fragment;
/// `MultiFragmentUnsupported` with more than one fragment; `TypeMismatch`
/// for a value of any other kind.
pub open spec fn pixel_bytes(object: DicomView) -> Result<Seq<u8>, DecodeErrorView> {
    if !object.elements.contains_key(PIXEL_DATA) {
        Err(DecodeErrorView::MissingAttribute)
    } else {
        match object.elements[PIXEL_DATA] {
            ValueView::Bytes(bytes) => Ok(bytes),
            ValueView::Fragments(fragments) => if fragments.len() == 1 {
                Ok(fragments[0])
            } else if fragments.len() == 0 {
                Err(DecodeErrorView::MissingAttribute)
            } else {
                Err(DecodeErrorView::MultiFragmentUnsupported)
            },
            _ => Err(DecodeErrorView::TypeMismatch),
        }
    }
}

/// Copies the encoded pixel bytes out of the object.
fn read_pixel_bytes(dicom: &Dicom) -> (r: Result<Vec<u8>, DecodeError>)
    ensures
        match r {
            Ok(bytes) => pixel_bytes(dicom@) == Ok::<Seq<u8>, DecodeErrorView>(bytes@),
            Err(e) => pixel_bytes(dicom@) == Err::<Seq<u8>, DecodeErrorView>(e@),
        },
{
    match dicom.find(PIXEL_DATA) {
        None => Err(DecodeError::MissingAttribute),
        Some(Value::Bytes(bytes)) => Ok(slice_to_vec(bytes.as_slice())),
        Some(Value::Fragments(fragments)) => {
            if fragments.len() == 1 {
                Ok(slice_to_vec(fragments[0].as_slice()))
            } else if fragments.len() == 0 {
                Err(DecodeError::MissingAttribute)
            } else {
                Err(DecodeError::MultiFragmentUnsupported)
            }
        },
        Some(_) => Err(DecodeError::TypeMismatch),
    }
}

/// Whether every one of `integers` fits 16 bits without sign.
pub open spec fn all_fit_u16(integers: Seq<i64>) -> bool {
    forall|i: int| 0 <= i < integers.len() ==> 0 <= #[trigger] integers[i] <= u16::MAX
}

/// The lookup table that a value holds, where it is a sequence of integers
/// that fit 16 bits without sign. A value without data is the empty table.
pub open spec fn table_of(value: ValueView) -> Option<Seq<u16>> {
    match value {
        ValueView::Empty => Some(Seq::empty()),
        ValueView::Bytes(bytes) => Some(bytes.map_values(|b: u8| b as u16)),
        ValueView::Words(words) => Some(words),
        ValueView::Integers(integers) if all_fit_u16(integers) => Some(
            integers.map_values(|n: i64| n as u16),
        ),
        _ => None,
    }
}

/// The lookup table under `tag`: `MissingPaletteData` without the element,
/// `UnexpectedPaletteType` where its value is no table.
pub open spec fn palette_table(object: DicomView, tag: Tag) -> Result<Seq<u16>, DecodeErrorView> {
    if !object.elements.contains_key(tag) {
        Err(DecodeErrorView::MissingPaletteData)
    } else {
        match table_of(object.elements[tag]) {
            Some(table) => Ok(table),
            None => Err(DecodeErrorView::UnexpectedPaletteType),
        }
    }
}

/// Reads one lookup table.
fn read_table(dicom: &Dicom, tag: Tag) -> (r: Result<Vec<u16>, DecodeError>)
    ensures
        match r {
            Ok(table) => palette_table(dicom@, tag) == Ok::<Seq<u16>, DecodeErrorView>(table@),
            Err(e) => palette_table(dicom@, tag) == Err::<Seq<u16>, DecodeErrorView>(e@),
        },
{
    match dicom.find(tag) {
        None => Err(DecodeError::MissingPaletteData),
        Some(Value::Empty) => Ok(Vec::new()),
        Some(Value::Words(words)) => Ok(slice_to_vec(words.as_slice())),
        Some(Value::Bytes(bytes)) => {
            let mut table: Vec<u16> = Vec::new();
            let mut i: usize = 0;
            while i < bytes.len()
                invariant
                    i <= bytes@.len(),
                    table@.len() == i,
                    forall|j: int| 0 <= j < i ==> table@[j] == bytes@[j] as u16,
                decreases bytes@.len() - i,
            {
                table.push(bytes[i] as u16);
                i = i + 1;
            }
            assert(table@ =~= bytes@.map_values(|b: u8| b as u16));
            Ok(table)
        },
        Some(Value::Integers(integers)) => {
            let mut table: Vec<u16> = Vec::new();
            let mut i: usize = 0;
            while i < integers.len()
                invariant
                    i <= integers@.len(),
                    dicom@.elements.contains_key(tag),
                    dicom@.elements[tag] == ValueView::Integers(integers@),
                    table@.len() == i,
                    forall|j: int| 0 <= j < i ==> 0 <= #[trigger] integers@[j] <= u16::MAX,
                    forall|j: int| 0 <= j < i ==> table@[j] == integers@[j] as u16,
                decreases integers@.len() - i,
            {
                let n: i64 = integers[i];
                if n < 0 || n > 0xFFFF {
                    assert(!all_fit_u16(integers@));
                    return Err(DecodeError::UnexpectedPaletteType);
                }
                table.push(n as u16);
                i = i + 1;
            }
            assert(all_fit_u16(integers@));
            assert(table@ =~= integers@.map_values(|n: i64| n as u16));
            Ok(table)
        },
        Some(_) => Err(DecodeError::UnexpectedPaletteType),
    }
}

/// The three lookup tables of an object: red, green, blue. The first table
/// that cannot be read decides the failure.
pub open spec fn palettes_of(object: DicomView) -> Result<PalettesView, DecodeErrorView> {
    match palette_table(object, RED_PALETTE) {
        Err(e) => Err(e),
        Ok(red) => match palette_table(object, GREEN_PALETTE) {
            Err(e) => Err(e),
            Ok(green) => match palette_table(object, BLUE_PALETTE) {
                Err(e) => Err(e),
                Ok(blue) => Ok(PalettesView { red, green, blue }),
            },
        },
    }
}

/// Reads the red, green and blue lookup tables of a palette image.
///
/// Fails with `MissingPaletteData` where a table is absent and with
/// `UnexpectedPaletteType` where one is not a sequence of integers that
/// fit 16 bits; the tables are read in the order red, green, blue.
pub fn get_palettes(dicom: &Dicom) -> (r: Result<Palettes, DecodeError>)
    ensures
        match r {
            Ok(palettes) => palettes_of(dicom@) == Ok::<PalettesView, DecodeErrorView>(palettes@),
            Err(e) => palettes_of(dicom@) == Err::<PalettesView, DecodeErrorView>(e@),
        },
{
    let red = match read_table(dicom, RED_PALETTE) {
        Ok(table) => table,
        Err(e) => {
            return Err(e);
        },
    };
    let green = match read_table(dicom, GREEN_PALETTE) {
        Ok(table) => table,
        Err(e) => {
            return Err(e);
        },
    };
    let blue = match read_table(dicom, BLUE_PALETTE) {
        Ok(table) => table,
        Err(e) => {
            return Err(e);
        },
    };
    Ok(Palettes { red, green, blue })
}

/// The name in a photometric interpretation text: the text without the NUL
/// padding at its end and without any whitespace.
pub open spec fn photometric_name(text: Seq<char>) -> Seq<char> {
    without_whitespace(without_trailing_nuls(text))
}

/// The photometric interpretation of an object.
///
/// `MissingAttribute` without the element, `TypeMismatch` where its value is
/// no text. The name is matched exactly; `PALETTECOLOR` brings the lookup
/// tables with it and fails where they do, see [`palettes_of`].
pub open spec fn photometric_of(object: DicomView) -> Result<PhotometricView, DecodeErrorView> {
    if !object.elements.contains_key(PHOTOMETRIC_INTERPRETATION) {
        Err(DecodeErrorView::MissingAttribute)
    } else {
        match object.elements[PHOTOMETRIC_INTERPRETATION] {
            ValueView::Text(text) => {
                let name = photometric_name(text);
                if name == "PALETTECOLOR"@ {
                    match palettes_of(object) {
                        Ok(palettes) => Ok(PhotometricView::PaletteColor(palettes)),
                        Err(e) => Err(e),
                    }
                } else if name == "RGB"@ {
                    Ok(PhotometricView::RGB)
                } else if name == "YBR_FULL_422"@ {
                    Ok(PhotometricView::YbrFull422)
                } else if name == "MONOCHROME2"@ {
                    Ok(PhotometricView::Monochrome2)
                } else {
                    Ok(PhotometricView::Other)
                }
            },
            _ => Err(DecodeErrorView::TypeMismatch),
        }
    }
}

/// Reads the photometric interpretation, with the lookup tables where it is
/// a palette.
fn read_photometric(dicom: &Dicom) -> (r: Result<PhotometricInterpretation, DecodeError>)
    ensures
        match r {
            Ok(photometric) => photometric_of(dicom@) == Ok::<PhotometricView, DecodeErrorView>(
                photometric@,
            ),
            Err(e) => photometric_of(dicom@) == Err::<PhotometricView, DecodeErrorView>(e@),
        },
{
    match dicom.find(PHOTOMETRIC_INTERPRETATION) {
        None => Err(DecodeError::MissingAttribute),
        Some(Value::Text(text)) => {
            let name = strip_whitespace(trim_trailing_nuls(text.as_str()));
            if same_text(name.as_str(), "PALETTECOLOR") {
                match get_palettes(dicom) {
                    Ok(palettes) => Ok(PhotometricInterpretation::PaletteColor(palettes)),
                    Err(e) => Err(e),
                }
            } else if same_text(name.as_str(), "RGB") {
                Ok(PhotometricInterpretation::RGB)
            } else if same_text(name.as_str(), "YBR_FULL_422") {
                Ok(PhotometricInterpretation::YbrFull422)
            } else if same_text(name.as_str(), "MONOCHROME2") {
                Ok(PhotometricInterpretation::Monochrome2)
            } else {
                Ok(PhotometricInterpretation::Other)
            }
        },
        Some(_) => Err(DecodeError::TypeMismatch),
    }
}

/// The shape that an object declares for its pixels.
///
/// The attributes are read in the order columns, rows, bits allocated,
/// samples per pixel, and the first that cannot be read decides the failure,
/// see [`integer_attribute`]. Bits allocated that are not a multiple of 8
/// are `UnsupportedBitDepth`.
pub open spec fn format_of(object: DicomView) -> Result<Format, DecodeErrorView> {
    match integer_attribute(object, COLUMNS) {
        Err(e) => Err(e),
        Ok(w) => match integer_attribute(object, ROWS) {
            Err(e) => Err(e),
            Ok(h) => match integer_attribute(object, BITS_ALLOCATED) {
                Err(e) => Err(e),
                Ok(bits) => match integer_attribute(object, SAMPLES_PER_PIXEL) {
                    Err(e) => Err(e),
                    Ok(channels) => if bits % 8 != 0 {
                        Err(DecodeErrorView::UnsupportedBitDepth)
                    } else {
                        Ok(Format { w, h, channels, channel_depth: bits / 8 })
                    },
                },
            },
        },
    }
}

/// The encoded image of an object.
///
/// Its parts are read in the order format, transfer syntax, pixel data,
/// photometric interpretation; the first that cannot be read decides the
/// failure.
pub open spec fn extracted(object: DicomView) -> Result<EncodedImageView, DecodeErrorView> {
    match format_of(object) {
        Err(e) => Err(e),
        Ok(target_format) => match encoding_result(object.transfer_syntax) {
            Err(e) => Err(e),
            Ok(encoding) => match pixel_bytes(object) {
                Err(e) => Err(e),
                Ok(bytes) => match photometric_of(object) {
                    Err(e) => Err(e),
                    Ok(photometric) => Ok(
                        EncodedImageView { target_format, encoding, photometric, bytes },
                    ),
                },
            },
        },
    }
}

/// Reads from a parsed object what is needed to decode its image.
///
/// The result is the one that [`extracted`] names, failures included: the
/// declared shape, the encoding named by the transfer syntax, the encoded
/// pixel bytes, and the photometric interpretation with its lookup tables.
pub fn get_encoded_image_data(dicom: &Dicom) -> (r: Result<EncodedImage, DecodeError>)
    ensures
        match r {
            Ok(encoded) => extracted(dicom@) == Ok::<EncodedImageView, DecodeErrorView>(encoded@),
            Err(e) => extracted(dicom@) == Err::<EncodedImageView, DecodeErrorView>(e@),
        },
{
    let w = match read_integer(dicom, COLUMNS) {
        Ok(n) => n,
        Err(e) => {
            return Err(e);
        },
    };
    let h = match read_integer(dicom, ROWS) {
        Ok(n) => n,
        Err(e) => {
            return Err(e);
        },
    };
    let bits_per_sample = match read_integer(dicom, BITS_ALLOCATED) {
        Ok(n) => n,
        Err(e) => {
            return Err(e);
        },
    };
    let samples_per_pixel = match read_integer(dicom, SAMPLES_PER_PIXEL) {
        Ok(n) => n,
        Err(e) => {
            return Err(e);
        },
    };
    if bits_per_sample % 8 != 0 {
        return Err(DecodeError::UnsupportedBitDepth);
    }
    let target_format = Format {
        w,
        h,
        channels: samples_per_pixel,
        channel_depth: bits_per_sample / 8,
    };
    let encoding = match encoding_from_uid(dicom.transfer_syntax.as_str()) {
        Ok(encoding) => encoding,
        Err(e) => {
            return Err(e);
        },
    };
    let bytes = match read_pixel_bytes(dicom) {
        Ok(bytes) => bytes,
        Err(e) => {
            return Err(e);
        },
    };
    let photometric = match read_photometric(dicom) {
        Ok(photometric) => photometric,
        Err(e) => {
            return Err(e);
        },
    };
    Ok(EncodedImage { target_format, encoding, photometric, bytes })
}

/// What reading and decoding the image of an object comes to, where `jpeg`
/// is what the JPEG decoder made of the stream: the failure of the
/// extraction, see [`extracted`], or the outcome of the decoding, see
/// [`decode_step`].
pub open spec fn image_of(object: DicomView, jpeg: Option<Seq<u8>>) -> Result<
    DecodeStepView,
    DecodeErrorView,
> {
    match extracted(object) {
        Ok(encoded) => decode_step(encoded, jpeg),
        Err(e) => Err(e),
    }
}

/// An object whose shape can be read and whose transfer syntax is none of
/// the four that are decoded yields `UnsupportedTransferSyntax`, with the
/// identifier, and nothing of it is decoded, whatever a decoder would make
/// of its pixel data.
pub proof fn unknown_transfer_syntax_is_refused(object: DicomView, jpeg: Option<Seq<u8>>)
    requires
        format_of(object) is Ok,
        encoding_of(without_trailing_nuls(object.transfer_syntax)) is None,
    ensures
        extracted(object) == Err::<EncodedImageView, DecodeErrorView>(
            DecodeErrorView::UnsupportedTransferSyntax(
                without_trailing_nuls(object.transfer_syntax),
            ),
        ),
        image_of(object, jpeg) == Err::<DecodeStepView, DecodeErrorView>(
            DecodeErrorView::UnsupportedTransferSyntax(
                without_trailing_nuls(object.transfer_syntax),
            ),
        ),
{
}

/// Reads the image of a parsed object and decodes it.
///
/// Fails as [`get_encoded_image_data`] does, then as [`decode_image`] does.
/// The outcome is the one that [`image_of`] names for what the JPEG decoder
/// returned, where the image is a baseline JPEG, and for any other object
/// the one that it names whatever a decoder returns. A JPEG stream that is
/// refused without the decoder, see [`jpeg_refused`], gives the outcome that
/// [`image_of`] names for a decoder that failed.
pub fn get_image(dicom: &Dicom) -> (r: Result<DecodeStep, DecodeError>)
    ensures
        exists|jpeg: Option<Seq<u8>>| outcome_view(r) == #[trigger] image_of(dicom@, jpeg),
        extracted(dicom@) matches Ok(encoded) && encoded.encoding == Encoding::JPEG
            && jpeg_refused(encoded.bytes) ==> outcome_view(r) == image_of(dicom@, None),
{
    match get_encoded_image_data(dicom) {
        Ok(encoded) => {
            let r = decode_image(encoded);
            proof {
                let jpeg = choose|jpeg: Option<Seq<u8>>|
                    outcome_view(r) == #[trigger] decode_step(encoded@, jpeg);
                assert(outcome_view(r) == image_of(dicom@, jpeg));
            }
            r
        },
        Err(e) => {
            assert(outcome_view(Err::<DecodeStep, DecodeError>(e)) == image_of(dicom@, None));
            Err(e)
        },
    }
}

} // verus!
