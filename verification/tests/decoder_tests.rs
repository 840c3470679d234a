use serial_telemetry::decoder::FrameDecoder;
use serial_telemetry::frame::Sample;

fn frame(counter: u8, channels: [i16; 6]) -> Vec<u8> {
    let mut bytes = vec![0xC7, 0x7C, counter];
    for value in channels {
        bytes.extend_from_slice(&value.to_be_bytes());
    }
    bytes.push(0x01);
    bytes
}

fn sample(counter: u8, channels: [i16; 6]) -> Sample {
    Sample { counter, channels }
}

#[test]
fn fresh_decoder_holds_nothing() {
    let decoder = FrameDecoder::new();
    assert_eq!(decoder.pending_len(), 0);
}

#[test]
fn empty_read_changes_nothing() {
    let mut decoder = FrameDecoder::new();
    assert!(decoder.feed(&[]).is_empty());
    assert_eq!(decoder.pending_len(), 0);
    assert!(decoder.feed(&[0xC7, 0x7C, 0x09]).is_empty());
    assert!(decoder.feed(&[]).is_empty());
    assert_eq!(decoder.pending_len(), 3);
    assert_eq!(decoder.pending_bytes(), &[0xC7, 0x7C, 0x09]);
}

#[test]
fn one_frame_gives_one_sample() {
    let mut decoder = FrameDecoder::new();
    let samples = decoder.feed(&frame(5, [10, 20, -100, 0, 1, 2]));
    assert_eq!(samples, vec![sample(5, [10, 20, -100, 0, 1, 2])]);
    assert_eq!(decoder.pending_len(), 0);
}

#[test]
fn frames_back_to_back_come_out_in_order() {
    let mut stream = Vec::new();
    for counter in 0..5u8 {
        stream.extend(frame(counter, [counter as i16, -(counter as i16), 0, 1, 2, 3]));
    }
    let mut decoder = FrameDecoder::new();
    let samples = decoder.feed(&stream);
    assert_eq!(samples.len(), 5);
    for (k, got) in samples.iter().enumerate() {
        assert_eq!(*got, sample(k as u8, [k as i16, -(k as i16), 0, 1, 2, 3]));
    }
    assert_eq!(decoder.pending_len(), 0);
}

#[test]
fn fewer_than_sixteen_bytes_are_held_back() {
    let mut decoder = FrameDecoder::new();
    let whole = frame(1, [1, 2, 3, 4, 5, 6]);
    assert!(decoder.feed(&whole[..15]).is_empty());
    assert_eq!(decoder.pending_len(), 15);
    let samples = decoder.feed(&whole[15..]);
    assert_eq!(samples, vec![sample(1, [1, 2, 3, 4, 5, 6])]);
    assert_eq!(decoder.pending_len(), 0);
}

#[test]
fn resynchronization() {
    let first = frame(1, [100, 200, 300, 400, 500, 600]);
    let second = frame(2, [-1, -2, -3, -4, -5, -6]);
    let third = frame(3, [0, 0, 0, 0, 0, 0]);
    let mut stream = vec![0x00, 0xFF, 0x13, 0x37];
    stream.extend(&first);
    stream.extend([0xAA; 21]);
    stream.extend(&second);
    stream.extend(&third);
    stream.extend([0x55, 0x66, 0x77]);

    let mut decoder = FrameDecoder::new();
    let samples = decoder.feed(&stream);
    assert_eq!(
        samples,
        vec![
            sample(1, [100, 200, 300, 400, 500, 600]),
            sample(2, [-1, -2, -3, -4, -5, -6]),
            sample(3, [0, 0, 0, 0, 0, 0]),
        ]
    );
    assert_eq!(decoder.pending_len(), 3);
}

#[test]
fn noise_with_start_markers_is_skipped_byte_by_byte() {
    // The noise begins like a frame, but its sixteenth byte is not the end
    // marker: one byte goes, then the next, until the real frame is at the head.
    let real = frame(9, [7, 7, 7, 7, 7, 7]);
    let mut stream = vec![0xC7, 0x7C, 0xC7, 0x7C, 0x00];
    stream.extend(&real);
    // The windows at offsets 0 and 2 start with both markers and end wrongly.
    assert_ne!(stream[15], 0x01);
    assert_ne!(stream[17], 0x01);
    let mut decoder = FrameDecoder::new();
    assert_eq!(decoder.feed(&stream), vec![sample(9, [7, 7, 7, 7, 7, 7])]);
    assert_eq!(decoder.pending_len(), 0);
}

#[test]
fn long_noise_leaves_fifteen_bytes() {
    let mut decoder = FrameDecoder::new();
    assert!(decoder.feed(&[0x42; 1000]).is_empty());
    assert_eq!(decoder.pending_len(), 15);
    assert_eq!(decoder.pending_bytes(), &[0x42; 15]);
}

#[test]
fn held_bytes_are_the_end_of_what_was_read() {
    let mut stream: Vec<u8> = (0..=40u8).collect();
    stream.extend(frame(3, [1, 1, 2, 3, 5, 8]));
    stream.extend([0xC7, 0x7C, 0x04, 0x00, 0x09]);
    let mut decoder = FrameDecoder::new();
    assert_eq!(decoder.feed(&stream[..30]), vec![]);
    assert_eq!(decoder.pending_bytes(), &stream[15..30]);
    assert_eq!(decoder.feed(&stream[30..]), vec![sample(3, [1, 1, 2, 3, 5, 8])]);
    assert_eq!(decoder.pending_bytes(), &[0xC7, 0x7C, 0x04, 0x00, 0x09]);
}

#[test]
fn noise_that_forms_a_frame_with_what_follows_is_taken_as_one() {
    // Two stray bytes that happen to be the start markers, in front of a
    // frame whose fourteenth byte equals the end marker: the window that
    // starts on the stray bytes is well formed and is what gets decoded.
    let real = frame(4, [1, 2, 3, 4, 5, 0x0100]);
    assert_eq!(real[13], 0x01);
    let mut stream = vec![0xC7, 0x7C];
    stream.extend(&real);
    let mut decoder = FrameDecoder::new();
    let samples = decoder.feed(&stream);
    assert_eq!(samples, vec![sample(0xC7, [0x7C04, 1, 2, 3, 4, 5])]);
    assert_eq!(decoder.pending_len(), 2);
}

#[test]
fn split_read_idempotence() {
    let mut stream = vec![0x01, 0x02, 0xC7];
    stream.extend(frame(10, [1, -1, 2, -2, 3, -3]));
    stream.extend([0xC7, 0x7C, 0x01]);
    stream.extend(frame(11, [i16::MAX, i16::MIN, 0, -1, 2, 256]));
    stream.extend(frame(12, [5, 5, 5, 5, 5, 5]));
    stream.extend([0xC7, 0x7C, 0x0C, 0x00]);

    let mut whole = FrameDecoder::new();
    let expected = whole.feed(&stream);
    assert_eq!(
        expected,
        vec![
            sample(10, [1, -1, 2, -2, 3, -3]),
            sample(11, [i16::MAX, i16::MIN, 0, -1, 2, 256]),
            sample(12, [5, 5, 5, 5, 5, 5]),
        ]
    );
    assert_eq!(whole.pending_len(), 4);

    for chunk in [1usize, 2, 3, 5, 7, 15, 16, 17, 31, 64] {
        let mut decoder = FrameDecoder::new();
        let mut got = Vec::new();
        for piece in stream.chunks(chunk) {
            got.extend(decoder.feed(piece));
        }
        assert_eq!(got, expected, "chunk size {}", chunk);
        assert_eq!(decoder.pending_len(), whole.pending_len(), "chunk size {}", chunk);
    }
}

#[test]
fn split_reads_with_empty_reads_in_between() {
    let stream = frame(1, [9, 8, 7, 6, 5, 4]);
    let mut decoder = FrameDecoder::new();
    let mut got = Vec::new();
    for byte in &stream {
        got.extend(decoder.feed(&[]));
        got.extend(decoder.feed(&[*byte]));
    }
    assert_eq!(got, vec![sample(1, [9, 8, 7, 6, 5, 4])]);
}

#[test]
fn held_bytes_stay_below_one_frame() {
    let mut decoder = FrameDecoder::new();
    let mut seed: u32 = 12345;
    for _ in 0..200 {
        let mut piece = Vec::new();
        seed = seed.wrapping_mul(1103515245).wrapping_add(12345);
        let len = (seed >> 16) % 40;
        for _ in 0..len {
            seed = seed.wrapping_mul(1103515245).wrapping_add(12345);
            piece.push((seed >> 16) as u8);
        }
        decoder.feed(&piece);
        assert!(decoder.pending_len() < 16);
    }
}
