use reach::frame::{encode_frame, FrameBuffer};

#[test]
fn frame_is_length_then_body() {
    assert_eq!(encode_frame(b"hello"), Ok(vec![0, 0, 0, 5, b'h', b'e', b'l', b'l', b'o']));
    assert_eq!(encode_frame(b""), Ok(vec![0, 0, 0, 0]));
    let long = vec![7u8; 0x0102_03];
    let frame = encode_frame(&long).unwrap();
    assert_eq!(&frame[..4], &[0, 1, 2, 3]);
    assert_eq!(frame.len(), 4 + 0x0102_03);
}

#[test]
fn buffer_waits_for_the_whole_frame() {
    let frame = encode_frame(b"hello").unwrap();
    let mut buffer = FrameBuffer::new();
    assert_eq!(buffer.len(), 0);
    assert_eq!(buffer.next_frame(), None);
    for (i, byte) in frame.iter().enumerate() {
        buffer.push(&[*byte]);
        if i + 1 < frame.len() {
            assert_eq!(buffer.next_frame(), None);
            assert_eq!(buffer.len(), i + 1);
        }
    }
    assert_eq!(buffer.next_frame(), Some(b"hello".to_vec()));
    assert_eq!(buffer.len(), 0);
    assert_eq!(buffer.next_frame(), None);
}

#[test]
fn buffer_parts_frames_that_arrive_together() {
    let mut bytes = encode_frame(b"one").unwrap();
    bytes.extend(encode_frame(b"").unwrap());
    bytes.extend(encode_frame(b"three").unwrap());
    bytes.extend_from_slice(&[0, 0]);
    let mut buffer = FrameBuffer::new();
    buffer.push(&bytes);
    assert_eq!(buffer.next_frame(), Some(b"one".to_vec()));
    assert_eq!(buffer.next_frame(), Some(vec![]));
    assert_eq!(buffer.next_frame(), Some(b"three".to_vec()));
    assert_eq!(buffer.next_frame(), None);
    assert_eq!(buffer.pending, vec![0, 0]);
    buffer.push(&[0, 1, 9]);
    assert_eq!(buffer.next_frame(), Some(vec![9]));
    assert_eq!(buffer.len(), 0);
}
