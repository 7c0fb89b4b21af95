use polkadot::pvf_worker::framing::{
    encode_frame, frame_header, read_frame, FrameReader, StreamEnd, FRAME_HEADER_LEN,
};

#[test]
fn frame_is_length_then_payload() {
    assert_eq!(FRAME_HEADER_LEN, 4);
    assert_eq!(encode_frame(&[]).unwrap(), vec![0, 0, 0, 0]);
    assert_eq!(encode_frame(&[7, 8, 9]).unwrap(), vec![3, 0, 0, 0, 7, 8, 9]);
    let payload = vec![1u8; 0x0102];
    let frame = encode_frame(&payload).unwrap();
    assert_eq!(&frame[..4], &[0x02, 0x01, 0, 0]);
    assert_eq!(&frame[4..], &payload[..]);
    assert_eq!(frame_header(0x0a0b_0c0d).unwrap(), vec![0x0d, 0x0c, 0x0b, 0x0a]);
}

#[test]
fn header_needs_a_32_bit_length() {
    assert!(frame_header(u32::MAX as usize).is_some());
    if usize::BITS > 32 {
        assert!(frame_header(u32::MAX as usize + 1).is_none());
    }
}

#[test]
fn read_frame_at_a_position() {
    let mut stream = encode_frame(&[1, 2]).unwrap();
    stream.extend(encode_frame(&[3]).unwrap());
    assert_eq!(read_frame(&stream, 0), Some((vec![1, 2], 6)));
    assert_eq!(read_frame(&stream, 6), Some((vec![3], 11)));
    assert_eq!(read_frame(&stream, 11), None);
    assert_eq!(read_frame(&stream[..10], 6), None);
    assert_eq!(read_frame(&stream[..8], 6), None);
}

#[test]
fn reader_collects_a_frame_from_chunks() {
    let frame = encode_frame(&[10, 20, 30, 40, 50]).unwrap();
    let mut reader = FrameReader::new();
    assert_eq!(reader.missing(), 4);
    assert_eq!(reader.take_frame(), None);
    assert_eq!(reader.feed(&frame[..2]), 2);
    assert_eq!(reader.missing(), 2);
    assert_eq!(reader.feed(&frame[2..4]), 2);
    assert_eq!(reader.missing(), 5);
    assert_eq!(reader.take_frame(), None);
    assert_eq!(reader.feed(&frame[4..7]), 3);
    assert_eq!(reader.missing(), 2);
    assert_eq!(reader.feed(&frame[7..]), 2);
    assert_eq!(reader.missing(), 0);
    assert_eq!(reader.take_frame(), Some(vec![10, 20, 30, 40, 50]));
    assert_eq!(reader.missing(), 4);
    assert_eq!(reader.end_of_stream(), StreamEnd::Clean);
}

#[test]
fn reader_takes_no_more_than_one_frame() {
    let mut stream = encode_frame(&[1]).unwrap();
    stream.extend(encode_frame(&[2, 3]).unwrap());
    let mut reader = FrameReader::new();
    let taken = reader.feed(&stream);
    assert_eq!(taken, 5);
    assert_eq!(reader.take_frame(), Some(vec![1]));
    assert_eq!(reader.feed(&stream[taken..]), 6);
    assert_eq!(reader.take_frame(), Some(vec![2, 3]));
}

#[test]
fn empty_payload_is_a_frame() {
    let mut reader = FrameReader::new();
    assert_eq!(reader.feed(&[0, 0, 0, 0, 9]), 4);
    assert_eq!(reader.take_frame(), Some(vec![]));
}

#[test]
fn end_of_stream_is_clean_only_between_frames() {
    let mut reader = FrameReader::new();
    assert_eq!(reader.end_of_stream(), StreamEnd::Clean);
    reader.feed(&[2]);
    assert_eq!(reader.end_of_stream(), StreamEnd::Truncated);
    reader.feed(&[0, 0, 0]);
    assert_eq!(reader.end_of_stream(), StreamEnd::Truncated);
    reader.feed(&[1]);
    assert_eq!(reader.end_of_stream(), StreamEnd::Truncated);
    reader.feed(&[1]);
    assert!(reader.take_frame().is_some());
    assert_eq!(reader.end_of_stream(), StreamEnd::Clean);
}
