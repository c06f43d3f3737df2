//! Decoding of the pixel data embedded in DICOM files.
//!
//! The pipeline runs from the attributes of a parsed object to a flat pixel
//! buffer: [`get_encoded_image_data`] reads the attributes that describe the
//! image, [`decode_image`] decodes the byte stream by its transfer syntax and
//! applies the colour lookup tables, and [`convert_to_BGRA8888`] lays the
//! pixels out for a display surface.
//!
//! Every function is total: what cannot be read or decoded is reported as a
//! [`DecodeError`], and each contract says on which inputs which failure
//! comes. Baseline JPEG streams are handed to the `jpeg-decoder` crate; a
//! JPEG 2000 stream is handed back to the caller, who brings a decoder.

pub mod decoding;
pub mod error;
pub mod export;
pub mod extract;
pub mod jpeg;
pub mod normalize;
pub mod object;
pub mod palette;
pub mod rle;
pub mod table;
pub mod text;
pub mod types;

pub use decoding::{
    decode_image, decode_image_with, finish_decode, finish_jpeg2000, jpeg2000_layout,
    jpeg2000_rendering, DecodeStep, DecodeStepView, Jpeg2000Layout,
};
pub use error::{DecodeError, DecodeErrorView};
pub use export::{raster_layout, RasterColor, RasterDepth, RasterLayout};
pub use extract::{encoding_from_uid, get_encoded_image_data, get_image, get_palettes};
pub use jpeg::{decode_JPEG, frame_is_accepted};
pub use normalize::convert_to_BGRA8888;
pub use object::{Dicom, DicomView, Element, Tag, Value, ValueView};
pub use palette::map_to_palette;
pub use rle::{decode_RLE, decode_header, decode_segment};
pub use table::{
    format_array, format_value, get_dicom_table, shorten, TableEntry, TableEntryView, TagNode,
    TagValue,
};
pub use text::{char_is_whitespace, strip_whitespace, trim_trailing_nuls};
pub use types::{
    EncodedImage, EncodedImageView, Encoding, Format, Palettes, PalettesView,
    PhotometricInterpretation, PhotometricView, RawImage, RawImageView,
};
