use shiguredo_http3::error::{Error, ErrorCode};
use shiguredo_http3::qpack::{Encoder as QpackEncoder, Header};
use shiguredo_http3::stream::{RawReceivedData, RequestStream};

#[test]
fn test_request_stream_send_encoded_headers() {
    let mut stream = RequestStream::new(0);
    let headers = vec![
        Header::new(b":method", b"GET").expect("test must succeed"),
        Header::new(b":path", b"/").expect("test must succeed"),
        Header::new(b":scheme", b"https").expect("test must succeed"),
        Header::new(b":authority", b"example.com").expect("test must succeed"),
    ];

    // QPACK エンコード
    let mut encoder = QpackEncoder::new();
    let mut qpack_buf = vec![0u8; 4096];
    let qpack_len = encoder
        .encode(&mut qpack_buf, &headers, 0)
        .expect("test must succeed");
    qpack_buf.truncate(qpack_len);

    stream
        .send_encoded_headers(&qpack_buf, false, false)
        .expect("test must succeed");
    assert!(stream.has_pending_send());

    let (data, fin) = stream.get_send_data();
    assert!(!data.is_empty());
    assert!(!fin);
}

#[test]
fn test_request_stream_send_body() {
    let mut stream = RequestStream::new(0);
    let headers = vec![Header::new(b":method", b"POST").expect("test must succeed")];

    // QPACK エンコード
    let mut encoder = QpackEncoder::new();
    let mut qpack_buf = vec![0u8; 4096];
    let qpack_len = encoder
        .encode(&mut qpack_buf, &headers, 0)
        .expect("test must succeed");
    qpack_buf.truncate(qpack_len);

    stream
        .send_encoded_headers(&qpack_buf, false, false)
        .expect("test must succeed");
    stream.send_body(b"hello", true).expect("test must succeed");

    let (data, _fin) = stream.get_send_data();
    assert!(!data.is_empty());
    // FIN は最後のデータ消費後に true になる
}

#[test]
fn test_request_stream_http2_frame_is_connection_error() {
    let mut stream = RequestStream::new(0);
    // HTTP/2 PRIORITY フレーム (0x02) はリクエストストリームで接続エラー
    // (RFC 9114 Section 7.2.8)
    let data = [0x02, 0x05, 0x00, 0x00, 0x00, 0x00, 0x00];
    stream.receive(&data, false);
    let result = stream.process_raw();
    assert!(
        matches!(
            result,
            Err(Error::ConnectionError(ErrorCode::FrameUnexpected))
        ),
        "expected ConnectionError(FrameUnexpected), got {result:?}"
    );
}

#[test]
fn test_request_stream_settings_frame_is_connection_error() {
    let mut stream = RequestStream::new(0);
    // SETTINGS フレーム (0x04) はリクエストストリームで接続エラー (RFC 9114 Section 7.2.4)
    let data = [0x04, 0x00];
    stream.receive(&data, false);
    let result = stream.process_raw();
    assert!(
        matches!(
            result,
            Err(Error::ConnectionError(ErrorCode::FrameUnexpected))
        ),
        "expected ConnectionError(FrameUnexpected), got {result:?}"
    );
}

#[test]
fn test_request_stream_settings_with_invalid_payload_is_connection_error() {
    // 不正ペイロード (HTTP/2 専用設定 ID = 0x02) を持つ SETTINGS でも
    // ペイロード内容に関わらず ConnectionError(FrameUnexpected) を返す
    // (RFC 9114 Section 7.2.4)
    let mut stream = RequestStream::new(0);
    // SETTINGS フレーム: type=0x04, len=2, payload=[0x02, 0x01]
    // 0x02 は ENABLE_PUSH (HTTP/2 専用設定 ID)
    let data = [0x04, 0x02, 0x02, 0x01];
    stream.receive(&data, false);
    let result = stream.process_raw();
    assert!(
        matches!(
            result,
            Err(Error::ConnectionError(ErrorCode::FrameUnexpected))
        ),
        "expected ConnectionError(FrameUnexpected), got {result:?}"
    );
}

#[test]
fn test_request_stream_goaway_frame_is_connection_error() {
    let mut stream = RequestStream::new(0);
    // GOAWAY フレーム (0x07) はリクエストストリームで接続エラー (RFC 9114 Section 7.2.6)
    let data = [0x07, 0x01, 0x00];
    stream.receive(&data, false);
    let result = stream.process_raw();
    assert!(
        matches!(
            result,
            Err(Error::ConnectionError(ErrorCode::FrameUnexpected))
        ),
        "expected ConnectionError(FrameUnexpected), got {result:?}"
    );
}

#[test]
fn test_request_stream_fin_without_headers_is_message_error() {
    // HEADERS なしで FIN は malformed (RFC 9114 Section 4.1, 4.1.2)
    let mut stream = RequestStream::new(0);
    stream.receive(&[], true);
    let result = stream.process_raw();
    assert!(
        matches!(result, Err(Error::StreamError(ErrorCode::MessageError))),
        "expected StreamError(MessageError), got {result:?}"
    );
}

#[test]
fn test_request_stream_fin_after_headers_is_stream_end() {
    // HEADERS 受信後の FIN は正常終了
    let mut stream = RequestStream::new(0);
    // HEADERS フレーム (QPACK: RIC=0, DeltaBase=0, Indexed :method GET)
    let data = [0x01, 0x03, 0x00, 0x00, 0xd1];
    stream.receive(&data, false);
    let _ = stream.process_raw().expect("test must succeed"); // Headers
    stream.receive(&[], true);
    let result = stream.process_raw().expect("test must succeed");
    assert!(
        matches!(result, Some(RawReceivedData::StreamEnd)),
        "expected StreamEnd, got {result:?}"
    );
}

#[test]
fn test_request_stream_receive_raw() {
    let mut stream = RequestStream::new(0);

    // HEADERS フレーム (QPACK: RIC=0, DeltaBase=0, Indexed :method GET)
    let data = [0x01, 0x03, 0x00, 0x00, 0xd1];
    stream.receive(&data, false);

    let result = stream
        .process_raw()
        .expect("test must succeed")
        .expect("test must succeed");
    if let RawReceivedData::Headers(encoded) = result {
        // エンコードされたフィールドセクションが返される
        assert_eq!(encoded, vec![0x00, 0x00, 0xd1]);
    } else {
        panic!("expected Headers");
    }
}

#[test]
fn test_request_stream_second_headers_is_trailers() {
    // ヘッダー → DATA → 2 回目 HEADERS はトレーラーとして Trailers バリアントを返す
    // (RFC 9114 Section 4.1)
    let mut stream = RequestStream::new(0);

    // 1 回目 HEADERS フレーム
    let headers_frame = [0x01, 0x03, 0x00, 0x00, 0xd1];
    stream.receive(&headers_frame, false);
    let result = stream
        .process_raw()
        .expect("test must succeed")
        .expect("test must succeed");
    assert!(
        matches!(result, RawReceivedData::Headers(_)),
        "expected Headers, got {result:?}"
    );

    // DATA フレーム
    let data_frame = [0x00, 0x05, b'h', b'e', b'l', b'l', b'o'];
    stream.receive(&data_frame, false);
    let result = stream
        .process_raw()
        .expect("test must succeed")
        .expect("test must succeed");
    assert!(
        matches!(result, RawReceivedData::Data(_)),
        "expected Data, got {result:?}"
    );

    // 2 回目 HEADERS フレーム (トレーラー)
    stream.receive(&headers_frame, false);
    let result = stream
        .process_raw()
        .expect("test must succeed")
        .expect("test must succeed");
    assert!(
        matches!(result, RawReceivedData::Trailers(_)),
        "expected Trailers, got {result:?}"
    );
}

#[test]
fn test_request_stream_notify_informational_resets_state() {
    // notify_informational() で ReceivingBody → WaitingHeaders に戻る
    // (1xx 受信後に最終レスポンス HEADERS を受け入れられるようにする)
    let mut stream = RequestStream::new(0);

    // 1 回目 HEADERS (1xx として扱う)
    let headers_frame = [0x01, 0x03, 0x00, 0x00, 0xd1];
    stream.receive(&headers_frame, false);
    let result = stream
        .process_raw()
        .expect("test must succeed")
        .expect("test must succeed");
    assert!(matches!(result, RawReceivedData::Headers(_)));

    // 1xx 通知 (状態を WaitingHeaders に戻す)
    stream.notify_informational();

    // 2 回目 HEADERS は最終レスポンスとして Headers を返す (Trailers ではない)
    stream.receive(&headers_frame, false);
    let result = stream
        .process_raw()
        .expect("test must succeed")
        .expect("test must succeed");
    assert!(
        matches!(result, RawReceivedData::Headers(_)),
        "expected Headers for final response after 1xx, got {result:?}"
    );

    // DATA も正常に受信できる
    let data_frame = [0x00, 0x03, b'f', b'o', b'o'];
    stream.receive(&data_frame, false);
    let result = stream
        .process_raw()
        .expect("test must succeed")
        .expect("test must succeed");
    assert!(
        matches!(result, RawReceivedData::Data(_)),
        "expected Data after final response, got {result:?}"
    );
}

#[test]
fn test_request_stream_headers_after_trailers_is_error() {
    // トレーラー受信後の HEADERS は接続エラー (RFC 9114 Section 4.1)
    let mut stream = RequestStream::new(0);

    // 1 回目 HEADERS
    let headers_frame = [0x01, 0x03, 0x00, 0x00, 0xd1];
    stream.receive(&headers_frame, false);
    let _ = stream
        .process_raw()
        .expect("test must succeed")
        .expect("test must succeed"); // Headers

    // 2 回目 HEADERS (トレーラー)
    stream.receive(&headers_frame, false);
    let _ = stream
        .process_raw()
        .expect("test must succeed")
        .expect("test must succeed"); // Trailers

    // 3 回目 HEADERS は接続エラー
    stream.receive(&headers_frame, false);
    let result = stream.process_raw();
    assert!(
        matches!(
            result,
            Err(Error::ConnectionError(ErrorCode::FrameUnexpected))
        ),
        "expected ConnectionError(FrameUnexpected), got {result:?}"
    );
}

#[test]
fn sent_headers_and_body_read_back_at_the_peer() {
    let mut client = RequestStream::new(0);
    let encoded = [0x00u8, 0x00, 0xd1];
    client.send_encoded_headers(&encoded, false, false).unwrap();
    client.send_body(b"hello", true).unwrap();
    let (bytes, _) = client.get_send_data();
    assert_eq!(bytes, &[0x01, 0x03, 0x00, 0x00, 0xd1, 0x00, 0x05, b'h', b'e', b'l', b'l', b'o'][..]);
    let bytes = bytes.to_vec();
    client.consume_send_data(bytes.len());
    let (rest, fin) = client.get_send_data();
    assert!(rest.is_empty());
    assert!(fin);

    let mut server = RequestStream::new(0);
    server.receive(&bytes, true);
    match server.process_raw().unwrap() {
        Some(RawReceivedData::Headers(h)) => assert_eq!(h, encoded.to_vec()),
        other => panic!("expected Headers, got {other:?}"),
    }
    match server.process_raw().unwrap() {
        Some(RawReceivedData::Data(d)) => assert_eq!(d, b"hello".to_vec()),
        other => panic!("expected Data, got {other:?}"),
    }
    assert!(matches!(server.process_raw().unwrap(), Some(RawReceivedData::StreamEnd)));
    assert_eq!(server.received_body(), b"hello");
    assert!(matches!(server.process_raw().unwrap(), None));
}

#[test]
fn unknown_frames_are_skipped() {
    let mut stream = RequestStream::new(4);
    // A reserved frame type 0x21 with two payload bytes, then HEADERS.
    stream.receive(&[0x21, 0x02, 0xaa, 0xbb, 0x01, 0x03, 0x00, 0x00, 0xd1], false);
    match stream.process_raw().unwrap() {
        Some(RawReceivedData::Headers(h)) => assert_eq!(h, vec![0x00, 0x00, 0xd1]),
        other => panic!("expected Headers, got {other:?}"),
    }
}

#[test]
fn incomplete_frame_waits_and_truncated_frame_is_frame_error() {
    let mut stream = RequestStream::new(0);
    stream.receive(&[0x01, 0x03, 0x00], false);
    assert!(matches!(stream.process_raw(), Ok(None)));
    stream.receive(&[], true);
    assert!(matches!(stream.process_raw(), Err(Error::ConnectionError(ErrorCode::FrameError))));
}

#[test]
fn data_before_headers_is_frame_unexpected() {
    let mut stream = RequestStream::new(0);
    stream.receive(&[0x00, 0x01, b'x'], false);
    assert!(matches!(stream.process_raw(), Err(Error::ConnectionError(ErrorCode::FrameUnexpected))));
}

#[test]
fn push_promise_is_frame_unexpected() {
    let mut stream = RequestStream::new(0);
    stream.receive(&[0x05, 0x01, 0x00], false);
    assert!(matches!(stream.process_raw(), Err(Error::ConnectionError(ErrorCode::FrameUnexpected))));
}

#[test]
fn send_side_order_is_enforced() {
    let mut stream = RequestStream::new(0);
    assert_eq!(stream.send_body(b"x", false), Err(Error::StreamError(ErrorCode::FrameUnexpected)));
    assert_eq!(stream.send_encoded_headers(&[0x00, 0x00], true, true), Err(Error::StreamError(ErrorCode::MessageError)));
    stream.send_encoded_headers(&[0x00, 0x00], false, true).unwrap();
    assert_eq!(stream.send_body(b"x", false), Err(Error::StreamError(ErrorCode::FrameUnexpected)));
    stream.send_encoded_headers(&[0x00, 0x00], false, false).unwrap();
    assert_eq!(stream.send_encoded_headers(&[0x00, 0x00], false, true), Err(Error::StreamError(ErrorCode::FrameUnexpected)));
    stream.send_body(b"x", false).unwrap();
    stream.send_encoded_headers(&[0x00, 0x00], false, false).unwrap();
    assert_eq!(stream.send_body(b"y", false), Err(Error::StreamError(ErrorCode::FrameUnexpected)));
    assert_eq!(stream.send_encoded_headers(&[0x00, 0x00], false, false), Err(Error::StreamError(ErrorCode::FrameUnexpected)));
}

#[test]
fn sending_after_the_end_is_stream_closed() {
    let mut stream = RequestStream::new(8);
    stream.send_encoded_headers(&[0x00, 0x00], true, false).unwrap();
    assert_eq!(stream.send_body(b"x", false), Err(Error::StreamClosed(8)));
    assert_eq!(stream.send_encoded_headers(&[0x00, 0x00], false, false), Err(Error::StreamClosed(8)));
}

#[test]
fn connect_tunnel_refuses_trailers() {
    let mut stream = RequestStream::new(0);
    stream.set_connect();
    stream.send_encoded_headers(&[0x00, 0x00], false, false).unwrap();
    assert_eq!(stream.send_encoded_headers(&[0x00, 0x00], false, false), Err(Error::StreamError(ErrorCode::FrameUnexpected)));
    stream.receive(&[0x01, 0x02, 0x00, 0x00, 0x01, 0x02, 0x00, 0x00], false);
    assert!(matches!(stream.process_raw(), Ok(Some(RawReceivedData::Headers(_)))));
    assert!(matches!(stream.process_raw(), Err(Error::ConnectionError(ErrorCode::FrameUnexpected))));
}
