use dicom_image::{decode_RLE, decode_header, decode_segment, DecodeError};

/// A 64-byte header with the given segment count and offsets.
fn header(count: u32, offsets: &[u32]) -> Vec<u8> {
    let mut bytes = Vec::new();
    bytes.extend_from_slice(&count.to_le_bytes());
    for o in offsets {
        bytes.extend_from_slice(&o.to_le_bytes());
    }
    while bytes.len() < 64 {
        bytes.push(0);
    }
    bytes
}

/// A frame with a 64-byte header and the given segments, one after another.
fn frame(segments: &[&[u8]]) -> Vec<u8> {
    let mut offsets = Vec::new();
    let mut at = 64u32;
    for s in segments {
        offsets.push(at);
        at += s.len() as u32;
    }
    let mut bytes = header(segments.len() as u32, &offsets);
    for s in segments {
        bytes.extend_from_slice(s);
    }
    bytes
}

#[test]
fn header_shorter_than_64_bytes_is_malformed() {
    assert_eq!(decode_header(&vec![1u8; 63]), Err(DecodeError::MalformedHeader));
    assert_eq!(decode_header(&Vec::new()), Err(DecodeError::MalformedHeader));
    assert_eq!(decode_RLE(&vec![1u8; 63]), Err(DecodeError::MalformedHeader));
}

#[test]
fn header_with_zero_segments_is_malformed() {
    assert_eq!(decode_header(&vec![0u8; 64]), Err(DecodeError::MalformedHeader));
    assert_eq!(decode_header(&vec![0u8; 200]), Err(DecodeError::MalformedHeader));
    assert_eq!(decode_RLE(&vec![0u8; 64]), Err(DecodeError::MalformedHeader));
}

#[test]
fn header_offsets_are_little_endian() {
    let bytes = header(2, &[64, 0x0102_0304]);
    assert_eq!(decode_header(&bytes), Ok(vec![64usize, 0x0102_0304]));
}

#[test]
fn header_of_exactly_64_bytes_with_one_segment() {
    let bytes = header(1, &[64]);
    assert_eq!(bytes.len(), 64);
    assert_eq!(decode_header(&bytes), Ok(vec![64usize]));
}

#[test]
fn header_with_fifteen_segments_fits_64_bytes() {
    let offsets: Vec<u32> = (0..15).map(|i| 64 + i).collect();
    let bytes = header(15, &offsets);
    assert_eq!(bytes.len(), 64);
    let expected: Vec<usize> = (0..15).map(|i| 64 + i).collect();
    assert_eq!(decode_header(&bytes), Ok(expected));
}

#[test]
fn segment_count_above_16_is_clamped_to_16_offsets() {
    let offsets: Vec<u32> = (0..16).map(|i| 100 + i).collect();
    let mut bytes = header(20, &offsets);
    assert_eq!(bytes.len(), 68);
    bytes.extend_from_slice(&[9, 9, 9, 9]);
    let expected: Vec<usize> = (0..16).map(|i| 100 + i).collect();
    assert_eq!(decode_header(&bytes), Ok(expected.clone()));

    let mut huge = bytes.clone();
    huge[0..4].copy_from_slice(&u32::MAX.to_le_bytes());
    assert_eq!(decode_header(&huge), Ok(expected));
}

#[test]
fn sixteenth_offset_behind_the_buffer_is_malformed() {
    let offsets: Vec<u32> = (0..15).map(|i| 64 + i).collect();
    let mut bytes = header(16, &offsets);
    assert_eq!(bytes.len(), 64);
    assert_eq!(decode_header(&bytes), Err(DecodeError::MalformedHeader));
    bytes.extend_from_slice(&[0, 0, 0]);
    assert_eq!(decode_header(&bytes), Err(DecodeError::MalformedHeader));
    bytes.push(0);
    assert!(decode_header(&bytes).is_ok());
}

#[test]
fn literal_run_copies_its_bytes() {
    // control byte 2: control value 3, three literal bytes
    assert_eq!(decode_segment(&[2, 10, 20, 30]), Ok(vec![10, 20, 30]));
    // control byte 0: one literal byte
    assert_eq!(decode_segment(&[0, 7]), Ok(vec![7]));
}

#[test]
fn longest_literal_run_is_128_bytes() {
    let mut data = vec![127u8];
    let body: Vec<u8> = (0..128).map(|i| i as u8).collect();
    data.extend_from_slice(&body);
    assert_eq!(decode_segment(&data), Ok(body));
}

#[test]
fn replicate_run_repeats_one_byte() {
    // control byte 253: control value 254, length 3 + (255 - 254) = 4
    assert_eq!(decode_segment(&[253, 5]), Ok(vec![5, 5, 5, 5]));
    // control byte 255: control value 256, length 2
    assert_eq!(decode_segment(&[255, 9]), Ok(vec![9, 9]));
    // control byte 129: control value 130, length 128
    assert_eq!(decode_segment(&[129, 1]), Ok(vec![1u8; 128]));
}

#[test]
fn runs_follow_each_other() {
    let data = [1, 11, 12, 254, 7, 0, 13, 255, 8];
    assert_eq!(decode_segment(&data), Ok(vec![11, 12, 7, 7, 7, 13, 8, 8]));
}

#[test]
fn truncated_literal_run_stops_without_error() {
    // a whole literal run, a whole replicate run, then a literal run that
    // announces 5 bytes where 2 are left
    let data = [1, 11, 12, 254, 7, 4, 1, 2];
    assert_eq!(decode_segment(&data), Ok(vec![11, 12, 7, 7, 7]));
    // the same as decoding the bytes before the truncated run
    assert_eq!(decode_segment(&data[..5]), Ok(vec![11, 12, 7, 7, 7]));
    // a truncated run at the very start yields nothing
    assert_eq!(decode_segment(&[3, 1, 2, 3]), Ok(vec![]));
}

#[test]
fn control_byte_128_stops_the_segment() {
    assert_eq!(decode_segment(&[0, 5, 128, 0, 6]), Ok(vec![5]));
    assert_eq!(decode_segment(&[128, 1, 0, 6]), Ok(vec![]));
}

#[test]
fn fewer_than_two_bytes_left_end_the_segment() {
    assert_eq!(decode_segment(&[]), Ok(vec![]));
    assert_eq!(decode_segment(&[0]), Ok(vec![]));
    assert_eq!(decode_segment(&[255]), Ok(vec![]));
    assert_eq!(decode_segment(&[0, 5, 254]), Ok(vec![5]));
}

#[test]
fn two_segments_are_decoded_and_interlaced() {
    // segment 0: literal (1, 2), then 3 times 3  ->  1 2 3 3 3
    let segment0: [u8; 5] = [1, 1, 2, 254, 3];
    // segment 1: 2 times 10, then literal (20, 30, 40)  ->  10 10 20 30 40
    let segment1: [u8; 6] = [255, 10, 2, 20, 30, 40];
    assert_eq!(decode_segment(&segment0), Ok(vec![1, 2, 3, 3, 3]));
    assert_eq!(decode_segment(&segment1), Ok(vec![10, 10, 20, 30, 40]));

    let bytes = frame(&[&segment0, &segment1]);
    let decoded = decode_RLE(&bytes).unwrap();
    assert_eq!(decoded, vec![1, 10, 2, 10, 3, 20, 3, 30, 3, 40]);
    let s0 = [1u8, 2, 3, 3, 3];
    let s1 = [10u8, 10, 20, 30, 40];
    for k in 0..5 {
        assert_eq!(decoded[k * 2], s0[k]);
        assert_eq!(decoded[k * 2 + 1], s1[k]);
    }
}

#[test]
fn single_segment_is_its_own_interlacing() {
    let bytes = frame(&[&[2, 4, 5, 6]]);
    assert_eq!(decode_RLE(&bytes), Ok(vec![4, 5, 6]));
}

#[test]
fn three_segments_interlace_by_threes() {
    let bytes = frame(&[&[1, 1, 2], &[1, 3, 4], &[1, 5, 6]]);
    assert_eq!(decode_RLE(&bytes), Ok(vec![1, 3, 5, 2, 4, 6]));
}

#[test]
fn interlacing_stops_at_the_shortest_segment() {
    // segment 0 decodes to 3 bytes, segment 1 to 2
    let bytes = frame(&[&[2, 1, 2, 3], &[1, 7, 8]]);
    assert_eq!(decode_RLE(&bytes), Ok(vec![1, 7, 2, 8]));
    // segment 0 decodes to 2 bytes, segment 1 to 3
    let bytes = frame(&[&[1, 1, 2], &[2, 7, 8, 9]]);
    assert_eq!(decode_RLE(&bytes), Ok(vec![1, 7, 2, 8]));
    // an empty segment leaves nothing
    let bytes = frame(&[&[1, 1, 2], &[]]);
    assert_eq!(decode_RLE(&bytes), Ok(vec![]));
}

#[test]
fn segment_behind_the_end_of_the_frame_is_malformed() {
    let mut bytes = header(1, &[65]);
    assert_eq!(decode_RLE(&bytes), Err(DecodeError::MalformedHeader));
    bytes.push(0);
    assert_eq!(decode_RLE(&bytes), Ok(vec![]));
}

#[test]
fn segment_offsets_out_of_order_are_malformed() {
    let mut bytes = header(2, &[70, 64]);
    bytes.extend_from_slice(&[0, 1, 0, 2, 0, 3, 0, 4]);
    assert_eq!(decode_RLE(&bytes), Err(DecodeError::MalformedHeader));
}

#[test]
fn rle_decoding_twice_gives_the_same_bytes() {
    let bytes = frame(&[&[1, 1, 2, 254, 3], &[255, 10, 2, 20, 30, 40]]);
    assert_eq!(decode_RLE(&bytes), decode_RLE(&bytes));
}
