use shiguredo_http3::error::{Error, ErrorCode};
use shiguredo_http3::frame::Frame;
use shiguredo_http3::settings::Settings;
use shiguredo_http3::stream::{ControlStreamRecv, ControlStreamSend};
use shiguredo_http3::varint::VarInt;

#[test]
fn test_control_stream_send() {
    let mut stream = ControlStreamSend::new();
    let settings = Settings::new().max_field_section_size(VarInt::from_static(16384));

    stream.send_settings(&settings);
    assert!(stream.has_pending());

    let data = stream.get_data();
    assert!(!data.is_empty());
    assert_eq!(data[0], 0x00); // Control stream type
}

#[test]
fn test_control_stream_recv() {
    let mut stream = ControlStreamRecv::new();

    // ストリームタイプ + SETTINGS フレーム
    // Type=0x00, Frame: type=0x04, len=0x00
    let data = [0x00, 0x04, 0x00];
    stream.receive(&data);

    let frame = stream
        .process()
        .expect("test must succeed")
        .expect("test must succeed");
    assert!(matches!(frame, Frame::Settings(_)));
    assert!(stream.is_ready());
}

#[test]
fn test_control_stream_recv_duplicate_settings() {
    let mut stream = ControlStreamRecv::new();

    // ストリームタイプ + SETTINGS フレーム (1 回目)
    let data = [0x00, 0x04, 0x00];
    stream.receive(&data);
    stream
        .process()
        .expect("test must succeed")
        .expect("test must succeed");
    assert!(stream.is_ready());

    // 2 回目の SETTINGS フレームは接続エラー (RFC 9114 Section 7.2.4)
    let data = [0x04, 0x00];
    stream.receive(&data);
    let result = stream.process();
    assert!(
        matches!(
            result,
            Err(Error::ConnectionError(ErrorCode::FrameUnexpected))
        ),
        "expected ConnectionError(FrameUnexpected), got {result:?}"
    );
}

#[test]
fn test_control_stream_recv_data_frame_is_error() {
    let mut stream = ControlStreamRecv::new();

    // ストリームタイプ + SETTINGS フレーム
    let data = [0x00, 0x04, 0x00];
    stream.receive(&data);
    stream
        .process()
        .expect("test must succeed")
        .expect("test must succeed");

    // DATA フレームは制御ストリームで接続エラー (RFC 9114 Section 7.2)
    let data = [0x00, 0x03, 0x01, 0x02, 0x03];
    stream.receive(&data);
    let result = stream.process();
    assert!(
        matches!(
            result,
            Err(Error::ConnectionError(ErrorCode::FrameUnexpected))
        ),
        "expected ConnectionError(FrameUnexpected), got {result:?}"
    );
}

#[test]
fn test_control_stream_recv_http2_frame_is_error() {
    let mut stream = ControlStreamRecv::new();

    // ストリームタイプ + SETTINGS フレーム
    let data = [0x00, 0x04, 0x00];
    stream.receive(&data);
    stream
        .process()
        .expect("test must succeed")
        .expect("test must succeed");

    // HTTP/2 PING フレーム (0x06) は接続エラー (RFC 9114 Section 7.2.8)
    let data = [0x06, 0x08, 0x00, 0x00, 0x00, 0x00, 0x00, 0x00, 0x00, 0x00];
    stream.receive(&data);
    let result = stream.process();
    assert!(
        matches!(
            result,
            Err(Error::ConnectionError(ErrorCode::FrameUnexpected))
        ),
        "expected ConnectionError(FrameUnexpected), got {result:?}"
    );
}

#[test]
fn test_control_stream_recv_http2_settings_id() {
    let mut stream = ControlStreamRecv::new();

    // ストリームタイプ + HTTP/2 専用設定 ID を含む SETTINGS フレーム
    // ENABLE_PUSH (0x02) = 1 → H3_SETTINGS_ERROR (RFC 9114 Section 7.2.4)
    let data = [0x00, 0x04, 0x02, 0x02, 0x01];
    stream.receive(&data);
    let result = stream.process();
    assert!(
        matches!(
            result,
            Err(Error::ConnectionError(ErrorCode::SettingsError))
        ),
        "expected ConnectionError(SettingsError), got {result:?}"
    );
}

#[test]
fn test_control_stream_recv_wt_stream_is_frame_error() {
    let mut stream = ControlStreamRecv::new();

    // ストリームタイプ + SETTINGS フレーム
    let data = [0x00, 0x04, 0x00];
    stream.receive(&data);
    stream
        .process()
        .expect("test must succeed")
        .expect("test must succeed");
    assert!(stream.is_ready());

    // SETTINGS 受信後 (Ready 状態) の WT_STREAM (0x41) は接続エラー
    // (draft-ietf-webtrans-http3-16 Section 4.3)
    let data = [0x40, 0x41, 0x00];
    stream.receive(&data);
    let result = stream.process();
    assert!(
        matches!(result, Err(Error::ConnectionError(ErrorCode::FrameError))),
        "expected ConnectionError(FrameError), got {result:?}"
    );
}

#[test]
fn test_control_stream_recv_wt_stream_before_settings_is_missing_settings() {
    let mut stream = ControlStreamRecv::new();

    // ストリームタイプ (0x00) を消費して WaitingSettings 状態にする
    let stream_type = [0x00];
    stream.receive(&stream_type);
    let result = stream.process().expect("test must succeed");
    assert!(
        result.is_none(),
        "expected stream type consumed, got {result:?}"
    );

    // SETTINGS 受信前 (WaitingSettings 状態) の WT_STREAM (0x41) は
    // H3_MISSING_SETTINGS になる (RFC 9114 Section 6.2.1 の SETTINGS 先頭必須が優先。
    // draft-ietf-webtrans-http3-16 Section 4.3 の H3_FRAME_ERROR より優先する)
    let data = [0x40, 0x41, 0x00];
    stream.receive(&data);
    let result = stream.process();
    assert!(
        matches!(
            result,
            Err(Error::ConnectionError(ErrorCode::MissingSettings))
        ),
        "expected ConnectionError(MissingSettings), got {result:?}"
    );
}

#[test]
fn settings_and_goaway_read_back_at_the_peer() {
    let mut send = ControlStreamSend::new();
    assert_eq!(
        send.send_goaway(VarInt::from_static(4)),
        Err(Error::ConnectionError(ErrorCode::ClosedCriticalStream))
    );
    let settings = Settings::new()
        .max_field_section_size(VarInt::from_static(16384))
        .qpack_max_table_capacity(VarInt::from_static(4096));
    send.send_settings(&settings);
    // Only the first call sends.
    let len = send.get_data().len();
    send.send_settings(&settings);
    assert_eq!(send.get_data().len(), len);
    send.send_goaway(VarInt::from_static(4)).unwrap();
    let bytes = send.get_data().to_vec();
    // type 0x00; SETTINGS: 0x01 => 4096, 0x06 => 16384; GOAWAY 4.
    assert_eq!(bytes, vec![0x00, 0x04, 0x08, 0x01, 0x50, 0x00, 0x06, 0x80, 0x00, 0x40, 0x00, 0x07, 0x01, 0x04]);
    send.consume_data(bytes.len());
    assert!(!send.has_pending());

    let mut recv = ControlStreamRecv::new();
    recv.receive(&bytes);
    match recv.process().unwrap() {
        Some(Frame::Settings(p)) => assert_eq!(p.settings().len(), 2),
        other => panic!("expected SETTINGS, got {other:?}"),
    }
    assert!(recv.is_ready());
    match recv.process().unwrap() {
        Some(Frame::Goaway(id)) => assert_eq!(id.get(), 4),
        other => panic!("expected GOAWAY, got {other:?}"),
    }
    assert!(!recv.has_pending_data());
    assert!(matches!(recv.process(), Ok(None)));
}

#[test]
fn wrong_stream_type_is_stream_creation_error() {
    let mut recv = ControlStreamRecv::new();
    recv.receive(&[0x01, 0x04, 0x00]);
    assert!(matches!(recv.process(), Err(Error::ConnectionError(ErrorCode::StreamCreationError))));
}

#[test]
fn duplicate_setting_in_one_frame_is_settings_error() {
    let mut recv = ControlStreamRecv::new();
    recv.receive(&[0x00, 0x04, 0x04, 0x06, 0x01, 0x06, 0x02]);
    assert!(matches!(recv.process(), Err(Error::ConnectionError(ErrorCode::SettingsError))));
}

#[test]
fn settings_pair_cut_short_is_frame_error() {
    let mut recv = ControlStreamRecv::new();
    recv.receive(&[0x00, 0x04, 0x01, 0x06]);
    assert!(matches!(recv.process(), Err(Error::ConnectionError(ErrorCode::FrameError))));
}

#[test]
fn unknown_frame_after_settings_is_handed_up() {
    let mut recv = ControlStreamRecv::new();
    recv.receive(&[0x00, 0x04, 0x00, 0x21, 0x01, 0xaa]);
    assert!(matches!(recv.process(), Ok(Some(Frame::Settings(_)))));
    match recv.process().unwrap() {
        Some(Frame::Unknown(t, payload)) => {
            assert_eq!(t, 0x21);
            assert_eq!(payload, vec![0xaa]);
        }
        other => panic!("expected an unknown frame, got {other:?}"),
    }
}

#[test]
fn cancel_push_is_frame_unexpected() {
    let mut recv = ControlStreamRecv::new();
    recv.receive(&[0x00, 0x04, 0x00, 0x03, 0x01, 0x00]);
    assert!(matches!(recv.process(), Ok(Some(Frame::Settings(_)))));
    assert!(matches!(recv.process(), Err(Error::ConnectionError(ErrorCode::FrameUnexpected))));
}
