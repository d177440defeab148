use pipe_relay::codec::{
    decode_header, decode_transform, encode_frame, encode_transform, frame_body, FrameError,
    TransformMatrix, TRANSFORM_DATA_SIZE,
};

fn matrix_of(values: &[f32]) -> TransformMatrix {
    let bits: Vec<u32> = values.iter().map(|v| v.to_bits()).collect();
    TransformMatrix::from_bits(bits).expect("16 elements")
}

fn floats_of(matrix: &TransformMatrix) -> Vec<f32> {
    matrix.bits().iter().map(|b| f32::from_bits(*b)).collect()
}

#[test]
fn encode_frame_writes_little_endian_header_then_pixels() {
    let out = encode_frame(640, 480, &[1, 2, 3]);
    assert_eq!(out, vec![0x80, 0x02, 0x00, 0x00, 0xE0, 0x01, 0x00, 0x00, 1, 2, 3]);
}

#[test]
fn encode_frame_orders_bytes_from_low_to_high() {
    let out = encode_frame(0x0403_0201, 0xA0B0_C0D0, &[]);
    assert_eq!(out, vec![0x01, 0x02, 0x03, 0x04, 0xD0, 0xC0, 0xB0, 0xA0]);
}

#[test]
fn encode_frame_does_not_check_pixels_against_dimensions() {
    let out = encode_frame(2, 2, &[9]);
    assert_eq!(out.len(), 9);
    assert_eq!(out[8], 9);
}

#[test]
fn frame_round_trip_recovers_dimensions_and_pixels() {
    let cases: Vec<(u32, u32, Vec<u8>)> = vec![
        (0, 0, vec![]),
        (1, 1, vec![255]),
        (1920, 1080, vec![7; 100]),
        (u32::MAX, u32::MAX - 1, vec![0, 1, 2, 3, 4, 5, 6, 7, 8, 9]),
        (256, 65536, vec![0xAB; 3]),
    ];
    for (width, height, pixels) in cases {
        let bytes = encode_frame(width, height, &pixels);
        assert_eq!(decode_header(&bytes), Ok((width, height)));
        assert_eq!(frame_body(&bytes), Some(&pixels[..]));
    }
}

#[test]
fn decode_header_reads_both_words() {
    let payload = [0x10, 0x00, 0x00, 0x00, 0x00, 0x01, 0x00, 0x00, 0xFF, 0xFF];
    assert_eq!(decode_header(&payload), Ok((16, 256)));
}

#[test]
fn decode_header_refuses_a_short_buffer() {
    assert_eq!(decode_header(&[]), Err(FrameError::MalformedInput));
    assert_eq!(decode_header(&[1, 2, 3, 4, 5, 6, 7]), Err(FrameError::MalformedInput));
    assert_eq!(frame_body(&[1, 2, 3, 4, 5, 6, 7]), None);
}

#[test]
fn decode_header_accepts_a_bare_header() {
    assert_eq!(decode_header(&[1, 0, 0, 0, 2, 0, 0, 0]), Ok((1, 2)));
    assert_eq!(frame_body(&[1, 0, 0, 0, 2, 0, 0, 0]), Some(&[][..]));
}

#[test]
fn record_with_one_in_second_slot_decodes() {
    let mut record = vec![0u8; 4];
    record.extend_from_slice(&[0x00, 0x00, 0x80, 0x3F]);
    record.extend_from_slice(&[0u8; 56]);
    assert_eq!(record.len(), TRANSFORM_DATA_SIZE);
    let decoded = decode_transform(&record);
    assert!(!decoded.corrupted);
    let mut expected = vec![0.0f32; 16];
    expected[1] = 1.0;
    assert_eq!(floats_of(&decoded.matrix), expected);
}

#[test]
fn transform_round_trip_is_lossless() {
    let values: Vec<f32> = vec![
        1.0, 0.0, 0.0, 0.5, 0.0, -1.0, 0.0, 2.25, 0.0, 0.0, 1.0e-20, -3.5e10, -0.0,
        f32::MAX, f32::MIN_POSITIVE, 1.0,
    ];
    let matrix = matrix_of(&values);
    let bytes = encode_transform(&matrix);
    let mut expected: Vec<u8> = Vec::new();
    for v in &values {
        expected.extend_from_slice(&v.to_le_bytes());
    }
    assert_eq!(bytes, expected);
    let decoded = decode_transform(&bytes);
    assert!(!decoded.corrupted);
    assert_eq!(decoded.matrix, matrix);
    assert_eq!(encode_transform(&decoded.matrix), bytes);
}

#[test]
fn transform_round_trip_keeps_nan_payloads() {
    let mut bits = vec![0u32; 16];
    bits[0] = 0x7FC0_0001;
    bits[5] = 0xFFFF_FFFF;
    bits[15] = 0x7F80_0000;
    let matrix = TransformMatrix::from_bits(bits.clone()).expect("16 elements");
    let decoded = decode_transform(&encode_transform(&matrix));
    assert_eq!(decoded.matrix.bits(), &bits);
}

#[test]
fn record_reencodes_to_the_same_bytes() {
    let record: Vec<u8> = (0u8..64).map(|i| i.wrapping_mul(37).wrapping_add(11)).collect();
    let decoded = decode_transform(&record);
    assert!(!decoded.corrupted);
    assert_eq!(decoded.matrix.bits()[0], u32::from_le_bytes([11, 48, 85, 122]));
    assert_eq!(encode_transform(&decoded.matrix), record);
}

#[test]
fn truncated_record_gives_flagged_zero_matrix() {
    let decoded = decode_transform(&[0xFF; 40]);
    assert!(decoded.corrupted);
    assert_eq!(decoded.matrix, TransformMatrix::zero());
    assert_eq!(floats_of(&decoded.matrix), vec![0.0f32; 16]);
    let one_short = decode_transform(&[0xFF; 63]);
    assert!(one_short.corrupted);
    assert_eq!(one_short.matrix.bits(), &vec![0u32; 16]);
    assert!(decode_transform(&[]).corrupted);
}

#[test]
fn zero_record_is_not_flagged() {
    let decoded = decode_transform(&[0u8; 64]);
    assert!(!decoded.corrupted);
    assert_eq!(decoded.matrix, TransformMatrix::zero());
}

#[test]
fn longer_buffer_decodes_its_first_record() {
    let mut buffer = vec![0u8; 64];
    buffer[60] = 0x2A;
    buffer.extend_from_slice(&[0xEE; 10]);
    let decoded = decode_transform(&buffer);
    assert!(!decoded.corrupted);
    assert_eq!(decoded.matrix.bits()[15], 42);
    assert_eq!(decoded.matrix.bits()[14], 0);
}

#[test]
fn matrix_needs_sixteen_elements() {
    assert!(TransformMatrix::from_bits(vec![0; 15]).is_none());
    assert!(TransformMatrix::from_bits(vec![0; 17]).is_none());
    assert!(TransformMatrix::from_bits(vec![]).is_none());
    let m = TransformMatrix::from_bits((0u32..16).collect()).expect("16 elements");
    assert_eq!(m.bits()[7], 7);
}
