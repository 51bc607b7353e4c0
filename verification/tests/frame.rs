use spectral_led::config::SPECTRUM_BINS;
use spectral_led::frame::{decode_frame, encode_frame, FRAME_LEN, FRAME_START, FRAME_VERSION};

fn sample_spectrum() -> Vec<u16> {
    (0..SPECTRUM_BINS).map(|i| (i as u16).wrapping_mul(1321)).collect()
}

#[test]
fn round_trip_recovers_bins() {
    let spectrum = sample_spectrum();
    let frame = encode_frame(&spectrum);
    let decoded = decode_frame(&frame).expect("well-formed frame");
    assert_eq!(decoded, spectrum);
}

#[test]
fn round_trip_recovers_extreme_bins() {
    let mut spectrum = vec![0u16; SPECTRUM_BINS];
    spectrum[0] = u16::MAX;
    spectrum[SPECTRUM_BINS - 1] = 1;
    let frame = encode_frame(&spectrum);
    assert_eq!(decode_frame(&frame).expect("well-formed frame"), spectrum);
}

#[test]
fn frame_layout_is_exact() {
    let frame = encode_frame(&vec![0u16; SPECTRUM_BINS]);
    let mut expected = vec![FRAME_START, FRAME_VERSION];
    expected.extend(std::iter::repeat(0u8).take(2 * SPECTRUM_BINS));
    expected.push(0);
    assert_eq!(frame, expected);
    assert_eq!(frame.len(), FRAME_LEN);
}

#[test]
fn payload_is_big_endian_with_byte_sum_checksum() {
    let mut spectrum = vec![0u16; SPECTRUM_BINS];
    spectrum[0] = 0x0102;
    spectrum[1] = 0x00FF;
    let frame = encode_frame(&spectrum);
    assert_eq!(frame[2], 0x01);
    assert_eq!(frame[3], 0x02);
    assert_eq!(frame[4], 0x00);
    assert_eq!(frame[5], 0xFF);
    // Checksum: (1 + 2 + 0 + 255) % 256 == 2.
    assert_eq!(frame[FRAME_LEN - 1], 2);
}

#[test]
fn corrupted_payload_is_rejected() {
    let mut frame = encode_frame(&sample_spectrum());
    frame[10] = frame[10].wrapping_add(1);
    assert!(decode_frame(&frame).is_none());
}

#[test]
fn corrupted_checksum_is_rejected() {
    let mut frame = encode_frame(&sample_spectrum());
    let last = frame.len() - 1;
    frame[last] = frame[last].wrapping_add(1);
    assert!(decode_frame(&frame).is_none());
}

#[test]
fn wrong_marker_is_rejected() {
    let mut frame = encode_frame(&sample_spectrum());
    frame[0] = 0;
    assert!(decode_frame(&frame).is_none());
    let mut frame2 = encode_frame(&sample_spectrum());
    frame2[1] = FRAME_VERSION + 1;
    assert!(decode_frame(&frame2).is_none());
}

#[test]
fn wrong_length_is_rejected() {
    let mut frame = encode_frame(&sample_spectrum());
    frame.pop();
    assert!(decode_frame(&frame).is_none());
    assert!(decode_frame(&Vec::new()).is_none());
}
