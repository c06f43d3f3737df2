use dicom_image::object::{
    BITS_ALLOCATED, BLUE_PALETTE, COLUMNS, GREEN_PALETTE, PHOTOMETRIC_INTERPRETATION, PIXEL_DATA,
    RED_PALETTE, ROWS, SAMPLES_PER_PIXEL,
};
use dicom_image::{
    encoding_from_uid, get_encoded_image_data, get_image, get_palettes, jpeg2000_rendering,
    DecodeError, DecodeStep,
    Dicom, Element, EncodedImage, Encoding, Format, Jpeg2000Layout, Palettes,
    PhotometricInterpretation, RawImage, Tag, Value,
};

fn element(tag: Tag, value: Value) -> Element {
    Element { tag, value }
}

/// A grey image of 2 by 3 pixels of one byte, not compressed.
fn object() -> Dicom {
    Dicom {
        transfer_syntax: "1.2.840.10008.1.2.1".to_string(),
        elements: vec![
            element(SAMPLES_PER_PIXEL, Value::Words(vec![1])),
            element(PHOTOMETRIC_INTERPRETATION, Value::Text("MONOCHROME2 ".to_string())),
            element(ROWS, Value::Words(vec![3])),
            element(COLUMNS, Value::Words(vec![2])),
            element(BITS_ALLOCATED, Value::Words(vec![8])),
            element(PIXEL_DATA, Value::Bytes(vec![1, 2, 3, 4, 5, 6])),
        ],
    }
}

fn without(mut dicom: Dicom, tag: Tag) -> Dicom {
    dicom.elements.retain(|e| e.tag != tag);
    dicom
}

fn with(dicom: Dicom, tag: Tag, value: Value) -> Dicom {
    let mut dicom = without(dicom, tag);
    dicom.elements.push(element(tag, value));
    dicom
}

#[test]
fn tags_are_group_and_element() {
    assert_eq!(COLUMNS, 0x0028_0011);
    assert_eq!(ROWS, 0x0028_0010);
    assert_eq!(BITS_ALLOCATED, 0x0028_0100);
    assert_eq!(SAMPLES_PER_PIXEL, 0x0028_0002);
    assert_eq!(PHOTOMETRIC_INTERPRETATION, 0x0028_0004);
    assert_eq!(PIXEL_DATA, 0x7FE0_0010);
    assert_eq!(RED_PALETTE, 0x0028_1201);
    assert_eq!(GREEN_PALETTE, 0x0028_1202);
    assert_eq!(BLUE_PALETTE, 0x0028_1203);
}

#[test]
fn find_returns_the_first_element_with_the_tag() {
    let mut dicom = object();
    dicom.elements.push(element(ROWS, Value::Words(vec![99])));
    assert_eq!(dicom.find(ROWS), Some(&Value::Words(vec![3])));
    assert_eq!(dicom.find(0x0010_0010), None);
    let empty = Dicom { transfer_syntax: String::new(), elements: vec![] };
    assert_eq!(empty.find(ROWS), None);
}

#[test]
fn image_attributes_are_extracted() {
    assert_eq!(
        get_encoded_image_data(&object()),
        Ok(EncodedImage {
            target_format: Format { w: 2, h: 3, channels: 1, channel_depth: 1 },
            encoding: Encoding::RAW,
            photometric: PhotometricInterpretation::Monochrome2,
            bytes: vec![1, 2, 3, 4, 5, 6],
        })
    );
}

#[test]
fn sixteen_bits_allocated_are_two_bytes() {
    let dicom = with(object(), BITS_ALLOCATED, Value::Words(vec![16]));
    let encoded = get_encoded_image_data(&dicom).unwrap();
    assert_eq!(encoded.target_format.channel_depth, 2);
}

#[test]
fn missing_attribute_is_reported() {
    for tag in [COLUMNS, ROWS, BITS_ALLOCATED, SAMPLES_PER_PIXEL, PIXEL_DATA, PHOTOMETRIC_INTERPRETATION] {
        assert_eq!(
            get_encoded_image_data(&without(object(), tag)),
            Err(DecodeError::MissingAttribute),
            "tag {:08X}",
            tag
        );
    }
}

#[test]
fn attribute_that_is_not_integral_is_a_type_mismatch() {
    for tag in [COLUMNS, ROWS, BITS_ALLOCATED, SAMPLES_PER_PIXEL] {
        for value in [
            Value::Text("8".to_string()),
            Value::Empty,
            Value::Other,
            Value::Words(vec![]),
            Value::Bytes(vec![]),
            Value::Integers(vec![]),
            Value::Integers(vec![-1]),
            Value::Integers(vec![0x1_0000_0000]),
            Value::Fragments(vec![vec![8]]),
        ] {
            assert_eq!(
                get_encoded_image_data(&with(object(), tag, value)),
                Err(DecodeError::TypeMismatch)
            );
        }
    }
}

#[test]
fn integers_of_any_width_are_read() {
    let dicom = with(object(), COLUMNS, Value::Integers(vec![0xFFFF_FFFF, 5]));
    let dicom = with(dicom, ROWS, Value::Bytes(vec![7, 1]));
    let encoded = get_encoded_image_data(&dicom).unwrap();
    assert_eq!(encoded.target_format.w, 0xFFFF_FFFF);
    assert_eq!(encoded.target_format.h, 7);
}

#[test]
fn bits_allocated_must_be_whole_bytes() {
    for bits in [1u16, 7, 12, 15] {
        let dicom = with(object(), BITS_ALLOCATED, Value::Words(vec![bits]));
        assert_eq!(get_encoded_image_data(&dicom), Err(DecodeError::UnsupportedBitDepth));
    }
}

#[test]
fn first_failure_is_reported() {
    // columns are read before bits allocated
    let dicom = with(without(object(), COLUMNS), BITS_ALLOCATED, Value::Words(vec![12]));
    assert_eq!(get_encoded_image_data(&dicom), Err(DecodeError::MissingAttribute));
    // the bit depth is looked at before the transfer syntax
    let mut dicom = with(object(), BITS_ALLOCATED, Value::Words(vec![12]));
    dicom.transfer_syntax = "1.2.3".to_string();
    assert_eq!(get_encoded_image_data(&dicom), Err(DecodeError::UnsupportedBitDepth));
    // the transfer syntax is looked at before the pixel data
    let mut dicom = without(object(), PIXEL_DATA);
    dicom.transfer_syntax = "1.2.3".to_string();
    assert_eq!(
        get_encoded_image_data(&dicom),
        Err(DecodeError::UnsupportedTransferSyntax("1.2.3".to_string()))
    );
}

#[test]
fn transfer_syntaxes_map_to_encodings() {
    assert_eq!(encoding_from_uid("1.2.840.10008.1.2.1"), Ok(Encoding::RAW));
    assert_eq!(encoding_from_uid("1.2.840.10008.1.2.4.50"), Ok(Encoding::JPEG));
    assert_eq!(encoding_from_uid("1.2.840.10008.1.2.4.90"), Ok(Encoding::JPEG2000));
    assert_eq!(encoding_from_uid("1.2.840.10008.1.2.5"), Ok(Encoding::RLE));
}

#[test]
fn transfer_syntax_padding_is_ignored() {
    assert_eq!(encoding_from_uid("1.2.840.10008.1.2.5\0"), Ok(Encoding::RLE));
    assert_eq!(encoding_from_uid("1.2.840.10008.1.2.1\0\0\0"), Ok(Encoding::RAW));
}

#[test]
fn unrecognized_transfer_syntax_fails() {
    for uid in ["1.2.840.10008.1.2", "1.2.840.10008.1.2.4.51", "", "RGB", " 1.2.840.10008.1.2.1", "1.2.840.10008.1.2.1 "] {
        assert_eq!(
            encoding_from_uid(uid),
            Err(DecodeError::UnsupportedTransferSyntax(uid.to_string()))
        );
    }
    assert_eq!(
        encoding_from_uid("1.2.840.10008.1.2.2\0"),
        Err(DecodeError::UnsupportedTransferSyntax("1.2.840.10008.1.2.2".to_string()))
    );
}

#[test]
fn unrecognized_transfer_syntax_is_never_decoded() {
    let mut dicom = object();
    dicom.transfer_syntax = "1.2.840.10008.1.2.4.70\0".to_string();
    let expected = DecodeError::UnsupportedTransferSyntax("1.2.840.10008.1.2.4.70".to_string());
    assert_eq!(get_encoded_image_data(&dicom), Err(expected.clone()));
    assert_eq!(get_image(&dicom), Err(expected));
}

#[test]
fn pixel_data_in_one_fragment_is_taken() {
    let dicom = with(object(), PIXEL_DATA, Value::Fragments(vec![vec![9, 8, 7]]));
    assert_eq!(get_encoded_image_data(&dicom).unwrap().bytes, vec![9, 8, 7]);
}

#[test]
fn pixel_data_in_several_fragments_is_unsupported() {
    let dicom = with(object(), PIXEL_DATA, Value::Fragments(vec![vec![9], vec![8]]));
    assert_eq!(get_encoded_image_data(&dicom), Err(DecodeError::MultiFragmentUnsupported));
}

#[test]
fn pixel_data_without_a_fragment_is_missing() {
    let dicom = with(object(), PIXEL_DATA, Value::Fragments(vec![]));
    assert_eq!(get_encoded_image_data(&dicom), Err(DecodeError::MissingAttribute));
}

#[test]
fn pixel_data_of_another_kind_is_a_type_mismatch() {
    for value in [
        Value::Words(vec![1, 2]),
        Value::Integers(vec![1]),
        Value::Text("x".to_string()),
        Value::Empty,
        Value::Other,
    ] {
        let dicom = with(object(), PIXEL_DATA, value);
        assert_eq!(get_encoded_image_data(&dicom), Err(DecodeError::TypeMismatch));
    }
}

#[test]
fn photometric_interpretations_are_recognized() {
    for (text, expected) in [
        ("RGB", PhotometricInterpretation::RGB),
        ("RGB ", PhotometricInterpretation::RGB),
        ("RGB\0", PhotometricInterpretation::RGB),
        ("YBR_FULL_422", PhotometricInterpretation::YbrFull422),
        ("MONOCHROME2", PhotometricInterpretation::Monochrome2),
        (" MONO CHROME2 \0\0", PhotometricInterpretation::Monochrome2),
        ("MONOCHROME1", PhotometricInterpretation::Other),
        ("rgb", PhotometricInterpretation::Other),
        ("", PhotometricInterpretation::Other),
        ("RGB\0 ", PhotometricInterpretation::Other),
    ] {
        let dicom = with(object(), PHOTOMETRIC_INTERPRETATION, Value::Text(text.to_string()));
        assert_eq!(get_encoded_image_data(&dicom).unwrap().photometric, expected, "{:?}", text);
    }
}

#[test]
fn photometric_interpretation_must_be_text() {
    let dicom = with(object(), PHOTOMETRIC_INTERPRETATION, Value::Words(vec![1]));
    assert_eq!(get_encoded_image_data(&dicom), Err(DecodeError::TypeMismatch));
}

fn palette_object() -> Dicom {
    let dicom = with(object(), PHOTOMETRIC_INTERPRETATION, Value::Text("PALETTE COLOR".to_string()));
    let dicom = with(dicom, RED_PALETTE, Value::Words(vec![10, 20, 30, 31, 32, 33, 34]));
    let dicom = with(dicom, GREEN_PALETTE, Value::Bytes(vec![40, 50, 60, 61, 62, 63, 64]));
    with(dicom, BLUE_PALETTE, Value::Integers(vec![70, 80, 65535, 91, 92, 93, 94]))
}

#[test]
fn palettes_are_read_with_a_palette_image() {
    let expected = Palettes {
        red: vec![10, 20, 30, 31, 32, 33, 34],
        green: vec![40, 50, 60, 61, 62, 63, 64],
        blue: vec![70, 80, 65535, 91, 92, 93, 94],
    };
    assert_eq!(get_palettes(&palette_object()), Ok(expected.clone()));
    assert_eq!(
        get_encoded_image_data(&palette_object()).unwrap().photometric,
        PhotometricInterpretation::PaletteColor(expected)
    );
}

#[test]
fn palettes_are_not_read_for_other_images() {
    let dicom = with(palette_object(), PHOTOMETRIC_INTERPRETATION, Value::Text("RGB".to_string()));
    let dicom = without(dicom, RED_PALETTE);
    assert_eq!(get_encoded_image_data(&dicom).unwrap().photometric, PhotometricInterpretation::RGB);
}

#[test]
fn empty_palette_value_is_an_empty_table() {
    let dicom = with(palette_object(), GREEN_PALETTE, Value::Empty);
    assert_eq!(get_palettes(&dicom).unwrap().green, Vec::<u16>::new());
}

#[test]
fn missing_palette_is_reported() {
    for tag in [RED_PALETTE, GREEN_PALETTE, BLUE_PALETTE] {
        let dicom = without(palette_object(), tag);
        assert_eq!(get_palettes(&dicom), Err(DecodeError::MissingPaletteData));
        assert_eq!(get_encoded_image_data(&dicom), Err(DecodeError::MissingPaletteData));
    }
}

#[test]
fn palette_of_another_type_is_reported() {
    for tag in [RED_PALETTE, GREEN_PALETTE, BLUE_PALETTE] {
        for value in [
            Value::Text("1".to_string()),
            Value::Other,
            Value::Fragments(vec![]),
            Value::Integers(vec![1, 65536]),
            Value::Integers(vec![-1, 2]),
        ] {
            let dicom = with(palette_object(), tag, value);
            assert_eq!(get_palettes(&dicom), Err(DecodeError::UnexpectedPaletteType));
            assert_eq!(get_encoded_image_data(&dicom), Err(DecodeError::UnexpectedPaletteType));
        }
    }
}

#[test]
fn red_palette_fails_first() {
    let dicom = without(with(palette_object(), RED_PALETTE, Value::Other), BLUE_PALETTE);
    assert_eq!(get_palettes(&dicom), Err(DecodeError::UnexpectedPaletteType));
    let dicom = with(without(palette_object(), RED_PALETTE), BLUE_PALETTE, Value::Other);
    assert_eq!(get_palettes(&dicom), Err(DecodeError::MissingPaletteData));
}

#[test]
fn image_is_read_and_decoded() {
    assert_eq!(
        get_image(&object()),
        Ok(DecodeStep::Done(RawImage {
            format: Format { w: 2, h: 3, channels: 1, channel_depth: 1 },
            bytes: vec![1, 2, 3, 4, 5, 6],
        }))
    );
}

#[test]
fn palette_image_is_read_and_decoded() {
    let image = match get_image(&palette_object()) {
        Ok(DecodeStep::Done(image)) => image,
        other => panic!("unexpected: {:?}", other),
    };
    assert_eq!(image.format, Format { w: 2, h: 3, channels: 3, channel_depth: 2 });
    assert_eq!(image.bytes.len(), 36);
    assert_eq!(&image.bytes[..6], &[20, 0, 50, 0, 80, 0]);
    assert_eq!(&image.bytes[6..12], &[30, 0, 60, 0, 255, 255]);
}

#[test]
fn jpeg2000_object_is_handed_back() {
    let mut dicom = with(object(), PIXEL_DATA, Value::Fragments(vec![vec![1, 2, 3]]));
    dicom.transfer_syntax = "1.2.840.10008.1.2.4.90".to_string();
    match get_image(&dicom) {
        Ok(DecodeStep::Jpeg2000(encoded)) => {
            assert_eq!(encoded.bytes, vec![1, 2, 3]);
            assert_eq!(encoded.encoding, Encoding::JPEG2000);
            assert_eq!(jpeg2000_rendering(&encoded.target_format, true), Ok(Jpeg2000Layout::Luma));
        }
        other => panic!("unexpected: {:?}", other),
    }
}

#[test]
fn extraction_failure_comes_before_decoding() {
    let mut dicom = without(object(), PHOTOMETRIC_INTERPRETATION);
    dicom.transfer_syntax = "1.2.840.10008.1.2.5".to_string();
    assert_eq!(get_image(&dicom), Err(DecodeError::MissingAttribute));
}
