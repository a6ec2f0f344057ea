use shiguredo_http3::qpack::{DecoderInstruction, DecoderStream, DecoderStreamReceiver};

#[test]
fn test_encode_section_acknowledgment() {
    let mut stream = DecoderStream::new();
    stream.encode_section_acknowledgment(4);

    // 1xxxxxxx with 7-bit prefix, value 4
    // 0x80 | 4 = 0x84
    assert_eq!(stream.get_data(), &[0x84]);
}

#[test]
fn test_encode_section_acknowledgment_large() {
    let mut stream = DecoderStream::new();
    // 127 を超える値
    stream.encode_section_acknowledgment(200);

    // 0x80 | 127 = 0xff, then 200 - 127 = 73
    assert_eq!(stream.get_data(), &[0xff, 73]);
}

#[test]
fn test_encode_stream_cancellation() {
    let mut stream = DecoderStream::new();
    stream.encode_stream_cancellation(8);

    // 01xxxxxx with 6-bit prefix, value 8
    // 0x40 | 8 = 0x48
    assert_eq!(stream.get_data(), &[0x48]);
}

#[test]
fn test_encode_insert_count_increment() {
    let mut stream = DecoderStream::new();
    stream.encode_insert_count_increment(3);

    // 00xxxxxx with 6-bit prefix, value 3
    // 0x00 | 3 = 0x03
    assert_eq!(stream.get_data(), &[0x03]);
}

#[test]
fn test_decode_insert_count_increment_zero() {
    let mut receiver = DecoderStreamReceiver::new();
    receiver.receive(&[0x00]);

    // increment が 0 の場合はエラー
    let result = receiver.process(10);
    assert!(result.is_err());
}

#[test]
fn test_decode_insert_count_increment_exceeds_total() {
    let mut receiver = DecoderStreamReceiver::new();
    // increment = 5 だが total_insert_count = 3
    receiver.receive(&[0x05]);

    let result = receiver.process(3);
    assert!(result.is_err());
    // known_received_count は更新されていないこと
    assert_eq!(receiver.known_received_count(), 0);
}

#[test]
fn test_decode_insert_count_increment_valid() {
    let mut receiver = DecoderStreamReceiver::new();
    receiver.receive(&[0x03]);

    let result = receiver.process(5).unwrap();
    assert_eq!(
        result,
        Some(DecoderInstruction::InsertCountIncrement { increment: 3 })
    );
    assert_eq!(receiver.known_received_count(), 3);
}
