use kv::frame::{write_frame, FrameError, FrameReader, MAX_FRAME_LEN};

#[test]
fn frame_round_trip_keeps_payload() {
    let payload: Vec<u8> = (0..300u32).map(|i| (i % 251) as u8).collect();
    let bytes = write_frame(&payload, MAX_FRAME_LEN).unwrap();
    assert_eq!(bytes.len(), payload.len() + 2);
    assert_eq!(&bytes[..2], &[1u8, 44u8]);
    let mut reader = FrameReader::new(MAX_FRAME_LEN);
    reader.feed(&bytes);
    assert_eq!(reader.read_frame(), Ok(Some(payload)));
    assert_eq!(reader.read_frame(), Ok(None));
    assert_eq!(reader.finish(), Ok(()));
}

#[test]
fn frame_empty_payload() {
    let bytes = write_frame(&[], 10).unwrap();
    assert_eq!(bytes, vec![0u8, 0u8]);
    let mut reader = FrameReader::new(10);
    reader.feed(&bytes);
    assert_eq!(reader.read_frame(), Ok(Some(Vec::new())));
}

#[test]
fn frame_largest_payload() {
    let payload = vec![7u8; MAX_FRAME_LEN];
    let bytes = write_frame(&payload, MAX_FRAME_LEN).unwrap();
    assert_eq!(&bytes[..2], &[255u8, 255u8]);
    let mut reader = FrameReader::new(MAX_FRAME_LEN);
    reader.feed(&bytes);
    assert_eq!(reader.read_frame(), Ok(Some(payload)));
    let too_long = vec![7u8; MAX_FRAME_LEN + 1];
    assert_eq!(write_frame(&too_long, usize::MAX), Err(FrameError::FrameTooLarge));
}

#[test]
fn frame_write_over_limit_is_refused() {
    assert_eq!(write_frame(b"hello", 4), Err(FrameError::FrameTooLarge));
    assert_eq!(write_frame(b"hell", 4), Ok(vec![0u8, 4, b'h', b'e', b'l', b'l']));
}

#[test]
fn frame_arrives_in_pieces() {
    let a = write_frame(b"first", 100).unwrap();
    let b = write_frame(b"second", 100).unwrap();
    let mut stream = a.clone();
    stream.extend_from_slice(&b);
    let mut reader = FrameReader::new(100);
    reader.feed(&stream[..1]);
    assert_eq!(reader.read_frame(), Ok(None));
    reader.feed(&stream[1..4]);
    assert_eq!(reader.read_frame(), Ok(None));
    reader.feed(&stream[4..9]);
    assert_eq!(reader.read_frame(), Ok(Some(b"first".to_vec())));
    assert_eq!(reader.read_frame(), Ok(None));
    reader.feed(&stream[9..]);
    assert_eq!(reader.read_frame(), Ok(Some(b"second".to_vec())));
    assert_eq!(reader.finish(), Ok(()));
}

#[test]
fn frame_declared_length_over_limit_is_refused_at_the_prefix() {
    let mut reader = FrameReader::new(16);
    // Only the prefix has arrived: 17 bytes declared, none of them here yet.
    reader.feed(&[0u8, 17u8]);
    assert_eq!(reader.read_frame(), Err(FrameError::FrameTooLarge));
    let mut reader = FrameReader::new(16);
    reader.feed(&[0u8, 16u8]);
    assert_eq!(reader.read_frame(), Ok(None));
}

#[test]
fn frame_stream_ending_inside_a_frame_is_truncated() {
    let bytes = write_frame(b"abcdef", 100).unwrap();
    let mut reader = FrameReader::new(100);
    reader.feed(&bytes[..5]);
    assert_eq!(reader.read_frame(), Ok(None));
    assert_eq!(reader.finish(), Err(FrameError::Truncated));
}
