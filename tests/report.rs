use ssandbox::report::{decode_frame, decode_length, encode_failure, encode_success, FrameError, ReportFrame};

#[test]
fn success_frame_is_one_zero_byte() {
    assert_eq!(encode_success(), vec![0u8]);
    assert_eq!(decode_frame(&vec![0u8]), Ok(ReportFrame::Ready));
}

#[test]
fn failure_frame_bytes() {
    let f = encode_failure(3, &b"pivot: EPERM".to_vec());
    let mut expected = vec![3u8, 12, 0, 0, 0, 0, 0, 0, 0];
    expected.extend_from_slice(b"pivot: EPERM");
    assert_eq!(f, expected);
}

#[test]
fn failure_frame_round_trip() {
    let payload = b"mount /images/alpine failed".to_vec();
    let f = encode_failure(2, &payload);
    assert_eq!(decode_frame(&f), Ok(ReportFrame::Failure { code: 2, payload }));
}

#[test]
fn failure_frame_round_trip_empty_payload() {
    let f = encode_failure(255, &Vec::new());
    assert_eq!(f.len(), 9);
    assert_eq!(decode_frame(&f), Ok(ReportFrame::Failure { code: 255, payload: Vec::new() }));
}

#[test]
fn length_is_little_endian() {
    assert_eq!(decode_length(&[1, 2, 0, 0, 0, 0, 0, 0]), 0x0201);
    assert_eq!(decode_length(&[0xff; 8]), u64::MAX);
    let f = encode_failure(1, &vec![7u8; 300]);
    assert_eq!(&f[1..9], &[0x2c, 0x01, 0, 0, 0, 0, 0, 0]);
}

#[test]
fn truncated_frames() {
    assert_eq!(decode_frame(&Vec::new()), Err(FrameError::Truncated));
    assert_eq!(decode_frame(&vec![4u8, 1, 0]), Err(FrameError::Truncated));
    assert_eq!(decode_frame(&vec![4u8, 2, 0, 0, 0, 0, 0, 0, 0, b'x']), Err(FrameError::Truncated));
}

#[test]
fn trailing_bytes() {
    assert_eq!(decode_frame(&vec![0u8, 0]), Err(FrameError::TrailingBytes));
    assert_eq!(
        decode_frame(&vec![4u8, 1, 0, 0, 0, 0, 0, 0, 0, b'x', b'y']),
        Err(FrameError::TrailingBytes)
    );
}
