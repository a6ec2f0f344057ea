use shiguredo_http3::stream::{RecvBuffer, SendBuffer, StreamKind, StreamState, UniStreamType};

#[test]
fn test_uni_stream_type() {
    assert_eq!(UniStreamType::from_type(0x00), Some(UniStreamType::Control));
    assert_eq!(UniStreamType::from_type(0x01), Some(UniStreamType::Push));
    assert_eq!(
        UniStreamType::from_type(0x02),
        Some(UniStreamType::QpackEncoder)
    );
    assert_eq!(
        UniStreamType::from_type(0x03),
        Some(UniStreamType::QpackDecoder)
    );
    assert_eq!(
        UniStreamType::from_type(0x54),
        Some(UniStreamType::WebTransport)
    );
    assert_eq!(UniStreamType::from_type(0x99), None);
}

#[test]
fn test_uni_stream_type_reserved() {
    assert!(UniStreamType::is_reserved(0x21)); // 0x1f * 0 + 0x21
    assert!(UniStreamType::is_reserved(0x40)); // 0x1f * 1 + 0x21
    assert!(!UniStreamType::is_reserved(0x00));
    assert!(!UniStreamType::is_reserved(0x20));
}

#[test]
fn test_stream_kind() {
    assert_eq!(StreamKind::from_stream_id(0), StreamKind::ClientBidi);
    assert_eq!(StreamKind::from_stream_id(1), StreamKind::ServerBidi);
    assert_eq!(StreamKind::from_stream_id(2), StreamKind::ClientUni);
    assert_eq!(StreamKind::from_stream_id(3), StreamKind::ServerUni);
    assert_eq!(StreamKind::from_stream_id(4), StreamKind::ClientBidi);
}

#[test]
fn test_stream_kind_properties() {
    assert!(StreamKind::ClientBidi.is_bidirectional());
    assert!(!StreamKind::ClientBidi.is_unidirectional());
    assert!(StreamKind::ClientBidi.is_client_initiated());

    assert!(StreamKind::ServerUni.is_unidirectional());
    assert!(!StreamKind::ServerUni.is_bidirectional());
    assert!(StreamKind::ServerUni.is_server_initiated());
}

#[test]
fn test_stream_state() {
    let mut state = StreamState::Open;
    assert!(state.can_send());
    assert!(state.can_receive());

    state.close_local();
    assert_eq!(state, StreamState::LocalClosed);
    assert!(!state.can_send());
    assert!(state.can_receive());

    state.close_remote();
    assert_eq!(state, StreamState::Closed);
    assert!(!state.can_send());
    assert!(!state.can_receive());
}

#[test]
fn test_send_buffer() {
    let mut buf = SendBuffer::new();
    assert!(!buf.has_pending());

    buf.push(b"hello");
    assert!(buf.has_pending());
    assert_eq!(buf.peek(), b"hello");

    buf.consume(3);
    assert_eq!(buf.peek(), b"lo");

    buf.set_fin();
    assert!(buf.is_fin());
    assert!(!buf.is_complete());

    buf.consume(2);
    // データは全て消費されたが FIN はまだ引き渡されていない
    assert!(!buf.is_complete());
    assert!(buf.has_pending()); // FIN-only が残っている

    buf.mark_fin_sent();
    assert!(buf.is_complete());
    assert!(!buf.has_pending());
}

#[test]
fn test_recv_buffer() {
    let mut buf = RecvBuffer::new();
    assert!(!buf.has_data());

    buf.push(b"world");
    assert!(buf.has_data());
    assert_eq!(buf.peek(), b"world");

    buf.consume(2);
    assert_eq!(buf.peek(), b"rld");

    buf.set_fin();
    assert!(buf.is_fin());
    assert!(!buf.is_complete());

    buf.consume(3);
    assert!(buf.is_complete());
}
