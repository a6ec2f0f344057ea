use shiguredo_http3::varint::{encode_into_vec, VarInt};
use shiguredo_http3::webtransport::{
    BIDIRECTIONAL_SIGNAL_VALUE, ClassifiedUniStream, Stream, StreamHeader, StreamHeaderDecodeError,
    UNIDIRECTIONAL_STREAM_TYPE, classify_uni_stream_checked, stream_type,
};

#[test]
fn test_stream_header_new_rejects_invalid_session_id() {
    // session_id % 4 != 0 は client-initiated bidi ID ではないので拒否される
    assert_eq!(
        StreamHeader::new(1),
        Err(StreamHeaderDecodeError::InvalidSessionId)
    );
    assert_eq!(
        StreamHeader::new(2),
        Err(StreamHeaderDecodeError::InvalidSessionId)
    );
    assert_eq!(
        StreamHeader::new(3),
        Err(StreamHeaderDecodeError::InvalidSessionId)
    );
    assert!(StreamHeader::new(0).is_ok());
    assert!(StreamHeader::new(4).is_ok());
}

#[test]
fn test_stream_creation() {
    let stream = Stream::new(4, 0, true);
    assert_eq!(stream.stream_id(), 4);
    assert_eq!(stream.session_id(), 0);
    assert!(stream.is_bidirectional());
    assert!(!stream.is_header_sent());
    assert!(!stream.is_header_received());
    assert_eq!(stream.bytes_sent(), 0);
    assert_eq!(stream.bytes_received(), 0);
}

#[test]
fn test_stream_bytes_tracking() {
    let mut stream = Stream::new(2, 0, false);
    stream.add_bytes_sent(100);
    stream.add_bytes_received(50);
    assert_eq!(stream.bytes_sent(), 100);
    assert_eq!(stream.bytes_received(), 50);

    stream.add_bytes_sent(200);
    assert_eq!(stream.bytes_sent(), 300);
}

#[test]
fn test_stream_type_helpers() {
    // Client-initiated bidirectional (0b00)
    assert!(stream_type::is_client_initiated(0));
    assert!(stream_type::is_bidirectional(0));

    // Server-initiated bidirectional (0b01)
    assert!(stream_type::is_server_initiated(1));
    assert!(stream_type::is_bidirectional(1));

    // Client-initiated unidirectional (0b10)
    assert!(stream_type::is_client_initiated(2));
    assert!(stream_type::is_unidirectional(2));

    // Server-initiated unidirectional (0b11)
    assert!(stream_type::is_server_initiated(3));
    assert!(stream_type::is_unidirectional(3));
}

#[test]
fn test_decode_unidirectional_checked_invalid_session_id() {
    let mut buf = Vec::new();
    encode_into_vec(&mut buf, VarInt::new(UNIDIRECTIONAL_STREAM_TYPE).unwrap());
    encode_into_vec(&mut buf, VarInt::new(5).unwrap());
    let result = StreamHeader::decode_unidirectional_checked(&buf);
    assert_eq!(result, Err(StreamHeaderDecodeError::InvalidSessionId));
}

#[test]
fn test_decode_bidirectional_checked_invalid_session_id() {
    let mut buf = Vec::new();
    encode_into_vec(&mut buf, VarInt::new(BIDIRECTIONAL_SIGNAL_VALUE).unwrap());
    encode_into_vec(&mut buf, VarInt::new(7).unwrap());
    let result = StreamHeader::decode_bidirectional_checked(&buf);
    assert_eq!(result, Err(StreamHeaderDecodeError::InvalidSessionId));
}

#[test]
fn test_classify_uni_stream_checked_webtransport_valid() {
    let mut buf = Vec::new();
    encode_into_vec(&mut buf, VarInt::new(UNIDIRECTIONAL_STREAM_TYPE).unwrap());
    encode_into_vec(&mut buf, VarInt::new(0).unwrap()); // session_id = 0 (0 % 4 == 0)
    let expected_offset = buf.len();
    buf.extend_from_slice(b"payload");
    let result = classify_uni_stream_checked(&buf).unwrap();
    assert_eq!(
        result,
        ClassifiedUniStream::WebTransport {
            session_id: 0,
            data_offset: expected_offset,
        }
    );
}

#[test]
fn test_classify_uni_stream_checked_webtransport_invalid_session_id() {
    let mut buf = Vec::new();
    encode_into_vec(&mut buf, VarInt::new(UNIDIRECTIONAL_STREAM_TYPE).unwrap());
    encode_into_vec(&mut buf, VarInt::new(5).unwrap()); // session_id = 5 (5 % 4 != 0)
    let result = classify_uni_stream_checked(&buf);
    assert_eq!(result, Err(StreamHeaderDecodeError::InvalidSessionId));
}

#[test]
fn test_classify_uni_stream_checked_http3() {
    // HTTP/3 制御ストリーム (type = 0x00)
    let mut buf = Vec::new();
    encode_into_vec(&mut buf, VarInt::new(0x00).unwrap());
    buf.extend_from_slice(b"data");
    let result = classify_uni_stream_checked(&buf).unwrap();
    assert_eq!(
        result,
        ClassifiedUniStream::Http3 {
            stream_type: 0x00,
            data_offset: 1,
        }
    );
}

#[test]
fn test_classify_uni_stream_checked_buffer_too_short() {
    let result = classify_uni_stream_checked(&[]);
    assert_eq!(result, Err(StreamHeaderDecodeError::BufferTooShort));
}

#[test]
fn test_classify_uni_stream_checked_session_id_buffer_too_short() {
    // ストリームタイプは読めるが session_id が不足
    let mut buf = Vec::new();
    encode_into_vec(&mut buf, VarInt::new(UNIDIRECTIONAL_STREAM_TYPE).unwrap());
    let result = classify_uni_stream_checked(&buf);
    assert_eq!(result, Err(StreamHeaderDecodeError::BufferTooShort));
}
