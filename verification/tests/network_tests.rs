use fenris::network::{frame_data, take_frame, u32_from_be_bytes, u32_to_be_bytes};

#[test]
fn test_frame_roundtrip() {
    let message = b"Hello, Network!";
    let wire = frame_data(message);
    assert_eq!(wire.len(), 4 + message.len());
    let (payload, consumed) = take_frame(&wire).unwrap();
    assert_eq!(payload, message);
    assert_eq!(consumed, wire.len());
}

#[test]
fn test_frame_empty_payload() {
    let wire = frame_data(b"");
    assert_eq!(wire, vec![0, 0, 0, 0]);
    let (payload, consumed) = take_frame(&wire).unwrap();
    assert!(payload.is_empty());
    assert_eq!(consumed, 4);
}

#[test]
fn test_frame_roundtrip_large() {
    let message: Vec<u8> = (0..1_000_000u32).map(|i| (i % 251) as u8).collect();
    let wire = frame_data(&message);
    let (payload, consumed) = take_frame(&wire).unwrap();
    assert_eq!(payload, message);
    assert_eq!(consumed, wire.len());
}

#[test]
fn test_incomplete_frame_is_not_taken() {
    assert!(take_frame(b"").is_none());
    assert!(take_frame(&[0, 0, 0]).is_none());
    // Length prefix promises 5 bytes, only 2 follow.
    assert!(take_frame(&[0, 0, 0, 5, 1, 2]).is_none());
}

#[test]
fn test_frame_followed_by_more_bytes() {
    let mut wire = frame_data(b"first");
    wire.extend_from_slice(&frame_data(b"second"));
    let (payload, consumed) = take_frame(&wire).unwrap();
    assert_eq!(payload, b"first");
    let (payload2, _) = take_frame(&wire[consumed..]).unwrap();
    assert_eq!(payload2, b"second");
}

#[test]
fn test_length_prefix_is_big_endian() {
    let bytes = u32_to_be_bytes(0x0102_0304);
    assert_eq!(bytes, vec![1, 2, 3, 4]);
    assert_eq!(u32_from_be_bytes(&bytes), 0x0102_0304);
}
