use serial_telemetry::decoder::FrameDecoder;
use serial_telemetry::frame::{combine, decode_frame, Sample, END_MARK, FRAME_LEN, START_A, START_B};

const KNOWN_FRAME: [u8; 16] = [
    0xC7, 0x7C, 0x05, 0x00, 0x0A, 0x00, 0x14, 0xFF, 0x9C, 0x00, 0x00, 0x00, 0x01, 0x00, 0x02, 0x01,
];

#[test]
fn frame_constants_have_wire_values() {
    assert_eq!(FRAME_LEN, 16);
    assert_eq!(START_A, 0xC7);
    assert_eq!(START_B, 0x7C);
    assert_eq!(END_MARK, 0x01);
}

#[test]
fn channel_decode_correctness() {
    let sample = decode_frame(&KNOWN_FRAME).expect("a well-formed frame decodes");
    assert_eq!(sample.counter, 5);
    assert_eq!(sample.channels, [10, 20, -100, 0, 1, 2]);
    assert_eq!(sample, Sample { counter: 5, channels: [10, 20, -100, 0, 1, 2] });
}

#[test]
fn combine_puts_first_byte_high() {
    assert_eq!(combine(0x00, 0x0A), 10);
    assert_eq!(combine(0x01, 0x00), 256);
    assert_eq!(combine(0x12, 0x34), 0x1234);
    assert_eq!(combine(0x00, 0x00), 0);
}

#[test]
fn combine_is_signed() {
    assert_eq!(combine(0xFF, 0x9C), -100);
    assert_eq!(combine(0xFF, 0xFF), -1);
    assert_eq!(combine(0x7F, 0xFF), i16::MAX);
    assert_eq!(combine(0x80, 0x00), i16::MIN);
    assert_eq!(combine(0x80, 0x01), -32767);
}

#[test]
fn combine_agrees_with_big_endian_for_every_pair() {
    for high in 0..=255u8 {
        for low in 0..=255u8 {
            assert_eq!(combine(high, low), i16::from_be_bytes([high, low]));
        }
    }
}

#[test]
fn malformed_end_marker_rejection() {
    let mut window = KNOWN_FRAME;
    window[15] = 0x02;
    assert_eq!(decode_frame(&window), None);

    let mut decoder = FrameDecoder::new();
    let samples = decoder.feed(&window);
    assert!(samples.is_empty());
    // Exactly one byte was discarded; the other fifteen wait for more input.
    assert_eq!(decoder.pending_len(), 15);
}

#[test]
fn wrong_start_markers_are_rejected() {
    let mut first = KNOWN_FRAME;
    first[0] = 0xC8;
    assert_eq!(decode_frame(&first), None);
    let mut second = KNOWN_FRAME;
    second[1] = 0x7D;
    assert_eq!(decode_frame(&second), None);
    let mut swapped = KNOWN_FRAME;
    swapped[0] = 0x7C;
    swapped[1] = 0xC7;
    assert_eq!(decode_frame(&swapped), None);
}

#[test]
fn windows_of_other_lengths_are_rejected() {
    assert_eq!(decode_frame(&KNOWN_FRAME[..15]), None);
    assert_eq!(decode_frame(&[]), None);
    let mut long = KNOWN_FRAME.to_vec();
    long.push(0x01);
    assert_eq!(decode_frame(&long), None);
}

#[test]
fn payload_is_opaque_to_framing() {
    // Marker values inside the payload do not disturb a well-formed frame.
    let window: [u8; 16] = [
        0xC7, 0x7C, 0xC7, 0x7C, 0x01, 0xC7, 0x7C, 0x01, 0x01, 0xFF, 0xFF, 0x80, 0x00, 0x7F, 0xFF,
        0x01,
    ];
    let sample = decode_frame(&window).expect("framing bytes are in place");
    assert_eq!(sample.counter, 0xC7);
    assert_eq!(sample.channels, [0x7C01, -14468, 0x0101, -1, i16::MIN, i16::MAX]);
}

#[test]
fn message_lists_the_six_readings_in_wire_order() {
    let sample = decode_frame(&KNOWN_FRAME).unwrap();
    assert_eq!(sample.message(), vec![10, 20, -100, 0, 1, 2]);
}
