use dicom_image::{convert_to_BGRA8888, DecodeError, Format, RawImage};

fn image(channels: u32, channel_depth: u32, bytes: Vec<u8>) -> RawImage {
    RawImage { format: Format { w: 2, h: 1, channels, channel_depth }, bytes }
}

#[test]
fn rgb_pixel_is_reversed_with_full_opacity() {
    let out = convert_to_BGRA8888(&image(3, 1, vec![1, 2, 3])).unwrap();
    assert_eq!(out.bytes, vec![3, 2, 1, 255]);
}

#[test]
fn gray_pixel_is_replicated_with_full_opacity() {
    let out = convert_to_BGRA8888(&image(1, 1, vec![9])).unwrap();
    assert_eq!(out.bytes, vec![9, 9, 9, 255]);
}

#[test]
fn normalized_format_is_four_channels_of_one_byte() {
    let out = convert_to_BGRA8888(&image(3, 2, vec![0; 12])).unwrap();
    assert_eq!(out.format, Format { w: 2, h: 1, channels: 4, channel_depth: 1 });
    let out = convert_to_BGRA8888(&image(1, 1, vec![0; 2])).unwrap();
    assert_eq!(out.format, Format { w: 2, h: 1, channels: 4, channel_depth: 1 });
}

#[test]
fn sixteen_bit_sample_keeps_its_high_byte() {
    // 0x1234 as little-endian bytes
    let out = convert_to_BGRA8888(&image(1, 2, vec![0x34, 0x12])).unwrap();
    assert_eq!(out.bytes, vec![0x12, 0x12, 0x12, 255]);
}

#[test]
fn truncation_does_not_round() {
    // 0x12FF stays 0x12, 0x00FF becomes 0
    let out = convert_to_BGRA8888(&image(1, 2, vec![0xFF, 0x12, 0xFF, 0x00])).unwrap();
    assert_eq!(out.bytes, vec![0x12, 0x12, 0x12, 255, 0, 0, 0, 255]);
}

#[test]
fn every_sixteen_bit_sample_is_truncated() {
    let mut bytes = Vec::new();
    let mut expected = Vec::new();
    for v in [0x0000u16, 0x00FF, 0x0100, 0x1234, 0x7FFF, 0x8000, 0xFFFF] {
        bytes.extend_from_slice(&v.to_le_bytes());
        let high = (v >> 8) as u8;
        expected.extend_from_slice(&[high, high, high, 255]);
    }
    let out = convert_to_BGRA8888(&image(1, 2, bytes)).unwrap();
    assert_eq!(out.bytes, expected);
}

#[test]
fn sixteen_bit_rgb_is_truncated_then_reversed() {
    let out = convert_to_BGRA8888(&image(3, 2, vec![0, 1, 0, 2, 0, 3, 9, 4, 9, 5, 9, 6])).unwrap();
    assert_eq!(out.bytes, vec![3, 2, 1, 255, 6, 5, 4, 255]);
}

#[test]
fn several_pixels_keep_their_order() {
    let out = convert_to_BGRA8888(&image(3, 1, vec![1, 2, 3, 4, 5, 6])).unwrap();
    assert_eq!(out.bytes, vec![3, 2, 1, 255, 6, 5, 4, 255]);
    let out = convert_to_BGRA8888(&image(1, 1, vec![1, 2])).unwrap();
    assert_eq!(out.bytes, vec![1, 1, 1, 255, 2, 2, 2, 255]);
}

#[test]
fn bytes_behind_the_last_whole_pixel_are_dropped() {
    let out = convert_to_BGRA8888(&image(3, 1, vec![1, 2, 3, 4, 5])).unwrap();
    assert_eq!(out.bytes, vec![3, 2, 1, 255]);
    let out = convert_to_BGRA8888(&image(1, 2, vec![0, 7, 1])).unwrap();
    assert_eq!(out.bytes, vec![7, 7, 7, 255]);
    let out = convert_to_BGRA8888(&image(1, 1, vec![])).unwrap();
    assert_eq!(out.bytes, Vec::<u8>::new());
}

#[test]
fn other_channel_counts_are_unsupported() {
    for channels in [0u32, 2, 4, 5] {
        assert_eq!(
            convert_to_BGRA8888(&image(channels, 1, vec![1, 2, 3, 4])),
            Err(DecodeError::UnsupportedChannelLayout)
        );
    }
}

#[test]
fn other_depths_are_unsupported() {
    for depth in [0u32, 3, 4] {
        assert_eq!(
            convert_to_BGRA8888(&image(3, depth, vec![1, 2, 3, 4])),
            Err(DecodeError::UnsupportedChannelLayout)
        );
    }
}
