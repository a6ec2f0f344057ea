use shiguredo_http3::webtransport::datagram::DatagramError;
use shiguredo_http3::webtransport::Datagram;

#[test]
fn test_datagram_quarter_stream_id() {
    let d = Datagram::new(0, vec![]).unwrap();
    assert_eq!(d.quarter_stream_id(), 0);

    let d = Datagram::new(4, vec![]).unwrap();
    assert_eq!(d.quarter_stream_id(), 1);

    let d = Datagram::new(8, vec![]).unwrap();
    assert_eq!(d.quarter_stream_id(), 2);

    let d = Datagram::new(400, vec![]).unwrap();
    assert_eq!(d.quarter_stream_id(), 100);
}

#[test]
fn test_datagram_encode_decode_empty_payload() {
    let d = Datagram::new(4, vec![]).unwrap();

    let mut buf = Vec::new();
    d.encode(&mut buf);

    let (decoded, consumed) = Datagram::decode(&buf).unwrap();
    assert_eq!(consumed, buf.len());
    assert_eq!(decoded.session_id, 4);
    assert_eq!(decoded.payload, vec![] as Vec<u8>);
}

#[test]
fn test_datagram_encode_decode_with_payload() {
    let payload = vec![1, 2, 3, 4, 5];
    let d = Datagram::new(8, payload.clone()).unwrap();

    let mut buf = Vec::new();
    d.encode(&mut buf);

    let (decoded, consumed) = Datagram::decode(&buf).unwrap();
    assert_eq!(consumed, buf.len());
    assert_eq!(decoded.session_id, 8);
    assert_eq!(decoded.payload, payload);
}

#[test]
fn test_datagram_decode_empty_buffer() {
    assert!(Datagram::decode(&[]).is_none());
}

#[test]
fn test_datagram_session_id_roundtrip_multiples_of_4() {
    // WebTransport セッション ID はクライアント開始双方向ストリーム (4 の倍数)
    for i in 0u64..100 {
        let session_id = i * 4;
        let d = Datagram::new(session_id, b"test".to_vec()).unwrap();
        let mut buf = Vec::new();
        d.encode(&mut buf);
        let (decoded, _) = Datagram::decode(&buf).unwrap();
        assert_eq!(decoded.session_id, session_id);
    }
}

#[test]
fn test_datagram_rejects_invalid_session_id() {
    // session_id = 5 は client-initiated bidirectional stream ID ではないため拒否
    assert_eq!(
        Datagram::new(5, vec![0xff]),
        Err(DatagramError::InvalidSessionId)
    );
}
