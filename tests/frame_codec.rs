use pcd_acm::frame::{decode_frame, encode_frame, FrameReader, FramingError, ReadState, ReadStep, END_MARKER, START_MARKER};

#[test]
fn decode_complete_frame() {
    let input = vec![0x0B, b'X', 0x1C];
    assert_eq!(decode_frame(&input), Ok(vec![b'X']));
}

#[test]
fn decode_stops_at_first_end_marker() {
    let input = vec![0x0B, b'a', b'b', 0x1C, b'c', 0x1C];
    assert_eq!(decode_frame(&input), Ok(vec![b'a', b'b']));
}

#[test]
fn decode_rejects_wrong_start() {
    let input = vec![b'X', b'Y', 0x1C];
    assert_eq!(decode_frame(&input), Err(FramingError::MissingStartMarker));
}

#[test]
fn decode_rejects_empty_input() {
    let input: Vec<u8> = Vec::new();
    assert_eq!(decode_frame(&input), Err(FramingError::MissingStartMarker));
}

#[test]
fn decode_tolerates_missing_end_marker() {
    let input = vec![0x0B, b'X'];
    assert_eq!(decode_frame(&input), Ok(vec![b'X']));
}

#[test]
fn decode_start_marker_alone_is_empty_payload() {
    let input = vec![0x0B];
    assert_eq!(decode_frame(&input), Ok(Vec::new()));
}

#[test]
fn encode_wraps_payload() {
    let payload = b"MSH|".to_vec();
    let framed = encode_frame(&payload);
    assert_eq!(framed, vec![START_MARKER, b'M', b'S', b'H', b'|', END_MARKER]);
    assert_eq!(decode_frame(&framed), Ok(payload));
}

#[test]
fn reader_collects_bytes_one_at_a_time() {
    let mut reader = FrameReader::new();
    assert_eq!(reader.feed(0x0B), ReadStep::NeedMore);
    assert_eq!(reader.feed(b'h'), ReadStep::NeedMore);
    assert_eq!(reader.feed(b'i'), ReadStep::NeedMore);
    assert_eq!(reader.feed(0x1C), ReadStep::Complete);
    assert!(reader.is_finished());
    assert_eq!(reader.state, ReadState::Done);
    assert_eq!(reader.finish(), Ok(b"hi".to_vec()));
}

#[test]
fn reader_rejects_wrong_first_byte() {
    let mut reader = FrameReader::new();
    assert_eq!(reader.feed(b'{'), ReadStep::MissingStartMarker);
    assert!(reader.is_finished());
    assert_eq!(reader.finish(), Err(FramingError::MissingStartMarker));
}

#[test]
fn reader_ended_before_any_byte() {
    let reader = FrameReader::new();
    assert!(!reader.is_finished());
    assert_eq!(reader.finish(), Err(FramingError::MissingStartMarker));
}
