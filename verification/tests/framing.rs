use secmsg_server::framing::{frame_len, read_frame, write_frame, FrameError};

#[test]
fn write_frame_exact_bytes() {
    let payload = vec![b'h', b'e', b'l', b'l', b'o'];
    let frame = write_frame(&payload).unwrap();
    assert_eq!(frame, vec![0u8, 0, 0, 5, b'h', b'e', b'l', b'l', b'o']);
}

#[test]
fn write_frame_empty_payload() {
    let payload: Vec<u8> = Vec::new();
    let frame = write_frame(&payload).unwrap();
    assert_eq!(frame, vec![0u8, 0, 0, 0]);
    assert_eq!(read_frame(&frame).unwrap(), Vec::<u8>::new());
}

#[test]
fn frame_round_trip() {
    let payload: Vec<u8> = (0u16..300).map(|n| (n % 256) as u8).collect();
    let frame = write_frame(&payload).unwrap();
    assert_eq!(read_frame(&frame).unwrap(), payload);
}

#[test]
fn length_field_is_big_endian() {
    let payload: Vec<u8> = vec![7u8; 258];
    let frame = write_frame(&payload).unwrap();
    assert_eq!(&frame[0..4], &[0u8, 0, 1, 2]);
    assert_eq!(frame_len(&[0u8, 0, 1, 2]), 258);
    assert_eq!(frame_len(&[1u8, 0, 0, 0]), 16777216);
    assert_eq!(frame_len(&[0u8, 0, 0, 0]), 0);
}

#[test]
fn read_frame_truncated_length_field() {
    let buf = vec![0u8, 0, 1];
    assert_eq!(read_frame(&buf), Err(FrameError::TruncatedFrame));
}

#[test]
fn read_frame_truncated_payload() {
    let buf = vec![0u8, 0, 0, 5, 1, 2];
    assert_eq!(read_frame(&buf), Err(FrameError::TruncatedFrame));
}

#[test]
fn read_frame_ignores_trailing_bytes() {
    let buf = vec![0u8, 0, 0, 2, 10, 20, 99, 99];
    assert_eq!(read_frame(&buf).unwrap(), vec![10u8, 20]);
}
