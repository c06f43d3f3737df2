use dicom_image::{map_to_palette, DecodeError, Palettes};

fn palettes() -> Palettes {
    Palettes { red: vec![10, 20, 30], green: vec![40, 50, 60], blue: vec![70, 80, 90] }
}

#[test]
fn palette_maps_one_byte_indices() {
    let mapped = map_to_palette(&vec![0, 1, 2], &palettes(), 1, 1).unwrap();
    assert_eq!(
        mapped,
        vec![10, 0, 40, 0, 70, 0, 20, 0, 50, 0, 80, 0, 30, 0, 60, 0, 90, 0]
    );
    // every channel in its declared width of 2 bytes
    assert_eq!(mapped.len(), 3 * 3 * 2);
    let pixel = |k: usize, c: usize| u16::from_le_bytes([mapped[6 * k + 2 * c], mapped[6 * k + 2 * c + 1]]);
    assert_eq!((pixel(0, 0), pixel(0, 1), pixel(0, 2)), (10, 40, 70));
    assert_eq!((pixel(1, 0), pixel(1, 1), pixel(1, 2)), (20, 50, 80));
    assert_eq!((pixel(2, 0), pixel(2, 1), pixel(2, 2)), (30, 60, 90));
}

#[test]
fn palette_entries_are_written_low_byte_first() {
    let p = Palettes { red: vec![0x1234], green: vec![0xABCD], blue: vec![0xFFFF] };
    assert_eq!(
        map_to_palette(&vec![0], &p, 1, 1),
        Ok(vec![0x34, 0x12, 0xCD, 0xAB, 0xFF, 0xFF])
    );
}

#[test]
fn palette_reads_two_byte_indices_big_endian() {
    let mut red = vec![0u16; 258];
    let mut green = vec![0u16; 258];
    let mut blue = vec![0u16; 258];
    red[257] = 1;
    green[257] = 2;
    blue[257] = 3;
    red[1] = 100;
    let p = Palettes { red, green, blue };
    // 0x0101 = 257, then 0x0001 = 1
    assert_eq!(
        map_to_palette(&vec![1, 1, 0, 1], &p, 1, 2),
        Ok(vec![1, 0, 2, 0, 3, 0, 100, 0, 0, 0, 0, 0])
    );
}

#[test]
fn palette_ignores_a_trailing_half_sample() {
    assert_eq!(
        map_to_palette(&vec![0, 1, 0], &palettes(), 1, 2),
        Ok(vec![20, 0, 50, 0, 80, 0])
    );
}

#[test]
fn palette_of_no_samples_is_empty() {
    assert_eq!(map_to_palette(&vec![], &palettes(), 1, 1), Ok(vec![]));
    assert_eq!(map_to_palette(&vec![7], &palettes(), 1, 2), Ok(vec![]));
}

#[test]
fn palette_requires_a_single_channel() {
    assert_eq!(
        map_to_palette(&vec![0, 1, 2], &palettes(), 3, 1),
        Err(DecodeError::PaletteRequiresSingleChannel)
    );
    assert_eq!(
        map_to_palette(&vec![0, 1, 2], &palettes(), 0, 1),
        Err(DecodeError::PaletteRequiresSingleChannel)
    );
    // the channel count is looked at before the depth
    assert_eq!(
        map_to_palette(&vec![0, 1, 2], &palettes(), 3, 7),
        Err(DecodeError::PaletteRequiresSingleChannel)
    );
}

#[test]
fn palette_depth_must_be_one_or_two() {
    for depth in [0u32, 3, 4, 8] {
        assert_eq!(
            map_to_palette(&vec![0, 1, 2], &palettes(), 1, depth),
            Err(DecodeError::UnsupportedPaletteBitDepth)
        );
    }
}

#[test]
fn index_without_a_palette_entry_is_missing_palette_data() {
    assert_eq!(
        map_to_palette(&vec![0, 3], &palettes(), 1, 1),
        Err(DecodeError::MissingPaletteData)
    );
    let short_blue = Palettes { red: vec![1, 2], green: vec![1, 2], blue: vec![1] };
    assert_eq!(
        map_to_palette(&vec![1], &short_blue, 1, 1),
        Err(DecodeError::MissingPaletteData)
    );
    assert_eq!(map_to_palette(&vec![0], &short_blue, 1, 1), Ok(vec![1, 0, 1, 0, 1, 0]));
}
