use xtb_rs::framing::FrameBuffer;

#[test]
fn two_frames_come_out_unaltered() {
    let mut buffer = FrameBuffer::new();
    buffer.push_bytes(b"{\"a\":1}\n\n{\"b\":2}\n\n");
    assert_eq!(buffer.next_frame(), Some(b"{\"a\":1}".to_vec()));
    assert_eq!(buffer.next_frame(), Some(b"{\"b\":2}".to_vec()));
    assert_eq!(buffer.next_frame(), None);
    assert_eq!(buffer.pending_len(), 0);
}

#[test]
fn the_extra_byte_is_dropped_whatever_it_is() {
    let mut buffer = FrameBuffer::new();
    buffer.push_bytes(b"first\nXsecond\nY");
    assert_eq!(buffer.next_frame(), Some(b"first".to_vec()));
    assert_eq!(buffer.next_frame(), Some(b"second".to_vec()));
    assert_eq!(buffer.next_frame(), None);
}

#[test]
fn the_extra_byte_may_arrive_later() {
    let mut buffer = FrameBuffer::new();
    buffer.push_bytes(b"first\n");
    assert_eq!(buffer.next_frame(), Some(b"first".to_vec()));
    assert_eq!(buffer.next_frame(), None);
    buffer.push_bytes(b"");
    buffer.push_bytes(b"\nsecond\n");
    assert_eq!(buffer.next_frame(), Some(b"second".to_vec()));
    buffer.push_bytes(b"\n");
    assert_eq!(buffer.pending_len(), 0);
    assert_eq!(buffer.next_frame(), None);
}

#[test]
fn a_frame_may_arrive_in_pieces() {
    let mut buffer = FrameBuffer::new();
    for byte in b"{\"a\":1}\n\n{\"b\":2}\n\n" {
        buffer.push_bytes(&[*byte]);
    }
    assert_eq!(buffer.next_frame(), Some(b"{\"a\":1}".to_vec()));
    assert_eq!(buffer.next_frame(), Some(b"{\"b\":2}".to_vec()));
    assert_eq!(buffer.next_frame(), None);
}

#[test]
fn no_frame_before_the_line_terminator() {
    let mut buffer = FrameBuffer::new();
    assert_eq!(buffer.next_frame(), None);
    buffer.push_bytes(b"{\"a\":");
    assert_eq!(buffer.next_frame(), None);
    assert_eq!(buffer.pending_len(), 5);
    buffer.push_bytes(b"1}");
    assert_eq!(buffer.next_frame(), None);
    buffer.push_bytes(b"\n");
    assert_eq!(buffer.next_frame(), Some(b"{\"a\":1}".to_vec()));
}

#[test]
fn an_empty_frame_is_a_frame() {
    let mut buffer = FrameBuffer::new();
    buffer.push_bytes(b"\n\n\n\n");
    assert_eq!(buffer.next_frame(), Some(Vec::new()));
    assert_eq!(buffer.next_frame(), Some(Vec::new()));
    assert_eq!(buffer.next_frame(), None);
}
