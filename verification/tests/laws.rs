use shiguredo_http3::frame::SettingsPayload;
use shiguredo_http3::settings::Settings;
use shiguredo_http3::varint::VarInt;
use shiguredo_http3::webtransport;
use shiguredo_http3::webtransport::{Capsule, ConnectRequest, DraftVersion, FlowControlLimits, Session};
use shiguredo_http3::qpack::huffman::{decode as huffman_decode, encode_to_vec};
use shiguredo_http3::qpack::{
    DecodeOutput, Decoder, DecoderInstruction, DecoderStream, DecoderStreamReceiver, DynamicDecoder, DynamicEncoder,
    DynamicTable, EncoderInstruction, EncoderStream, EncoderStreamReceiver, Header,
};

fn headers(pairs: &[(&[u8], &[u8])]) -> Vec<Header> {
    pairs.iter().map(|(n, v)| Header::new(n, v).unwrap()).collect()
}

fn pairs(hs: &[Header]) -> Vec<(Vec<u8>, Vec<u8>)> {
    hs.iter().map(|h| (h.name().to_vec(), h.value().to_vec())).collect()
}

#[test]
fn huffman_roundtrip_on_every_byte_value() {
    let input: Vec<u8> = (0u8..=255).collect();
    let encoded = encode_to_vec(&input);
    assert_eq!(huffman_decode(&encoded).unwrap(), input);
}

#[test]
fn huffman_roundtrip_on_empty_and_long_codes() {
    for input in [&b""[..], &b"\x00\x01\xfe\xff"[..], &b"custom-key: custom-value"[..]] {
        let encoded = encode_to_vec(input);
        assert_eq!(huffman_decode(&encoded).unwrap(), input);
    }
}

#[test]
fn huffman_padding_longer_than_seven_bits_is_rejected() {
    // "a" codes as 00011 and pads with 111; a whole extra byte of ones is an error.
    assert_eq!(huffman_decode(&[0x1f]).unwrap(), b"a");
    assert!(huffman_decode(&[0x1f, 0xff]).is_err());
}

#[test]
fn static_section_roundtrip_with_huffman() {
    let mut encoder = DynamicEncoder::new();
    let hs = headers(&[
        (b":method", b"GET"),
        (b":path", b"/index.html"),
        (b"user-agent", b"verified-client"),
        (b"x-custom", b"some value"),
    ]);
    let mut buf = vec![0u8; 256];
    let len = encoder.encode(&mut buf, &hs, 0).unwrap();
    let decoded = Decoder::new().decode(&buf[..len]).unwrap();
    assert_eq!(pairs(&decoded), pairs(&hs));
}

#[test]
fn dynamic_section_roundtrip_with_shared_table() {
    let mut encoder = DynamicEncoder::new();
    encoder.set_max_table_capacity(4096);
    encoder.set_table_capacity(4096).unwrap();
    encoder.set_peer_max_blocked_streams(10);
    encoder.insert(b":authority".to_vec(), b"www.example.com".to_vec());
    encoder.insert(b"x-custom".to_vec(), b"first".to_vec());

    let mut decoder = DynamicDecoder::new();
    decoder.set_max_table_capacity(4096);
    decoder.set_table_capacity(4096);
    decoder.insert(b":authority".to_vec(), b"www.example.com".to_vec());
    decoder.insert(b"x-custom".to_vec(), b"first".to_vec());

    let hs = headers(&[
        (b":authority", b"www.example.com"),
        (b"x-custom", b"second"),
        (b":method", b"GET"),
        (b"other", b"value"),
    ]);
    let mut buf = vec![0u8; 256];
    let len = encoder.encode(&mut buf, &hs, 0).unwrap();
    assert_eq!(encoder.last_required_insert_count(), 2);
    match decoder.decode(&buf[..len]).unwrap() {
        DecodeOutput::Decoded(decoded) => assert_eq!(pairs(&decoded), pairs(&hs)),
        DecodeOutput::Blocked => panic!("the decoder holds every entry"),
    }
}

#[test]
fn dynamic_table_insert_then_find() {
    let mut table = DynamicTable::with_capacity(4096);
    let a = table.insert(b"name".to_vec(), b"value".to_vec()).unwrap();
    let b = table.insert(b"name".to_vec(), b"value".to_vec()).unwrap();
    assert_eq!((a, b), (0, 1));
    let e = table.get_by_absolute_index(b).unwrap();
    assert_eq!((e.name.as_slice(), e.value.as_slice()), (&b"name"[..], &b"value"[..]));
    assert_eq!(table.find_entry(b"name", b"value"), (Some(1), Some(1)));
}

#[test]
fn encoder_stream_literal_insert_is_applied_by_the_peer() {
    let mut stream = EncoderStream::new();
    stream.set_max_table_capacity(4096);
    stream.encode_insert_with_literal_name(b"custom-key", b"custom-value").unwrap();
    let mut receiver = EncoderStreamReceiver::new();
    receiver.set_max_table_capacity(4096);
    receiver.receive(stream.get_data());
    let mut table = DynamicTable::with_capacity(4096);
    match receiver.process(&mut table).unwrap().unwrap() {
        EncoderInstruction::InsertWithLiteralName { name, value } => {
            assert_eq!(&name[..], b"custom-key");
            assert_eq!(&value[..], b"custom-value");
        }
        _ => panic!("expected an Insert with Literal Name"),
    }
    assert!(receiver.buffer().is_empty());
    let e = table.get_by_absolute_index(0).unwrap();
    assert_eq!((e.name.as_slice(), e.value.as_slice()), (&b"custom-key"[..], &b"custom-value"[..]));
}

#[test]
fn encoder_stream_name_ref_capacity_and_duplicate_are_applied_by_the_peer() {
    let mut stream = EncoderStream::new();
    stream.set_max_table_capacity(4096);
    stream.encode_set_capacity(1024).unwrap();
    stream.encode_insert_with_name_ref(true, 1, b"/long/path/value").unwrap();
    stream.encode_duplicate(0).unwrap();
    let mut receiver = EncoderStreamReceiver::new();
    receiver.set_max_table_capacity(4096);
    receiver.receive(stream.get_data());
    let mut table = DynamicTable::with_capacity(0);
    assert_eq!(
        receiver.process(&mut table).unwrap(),
        Some(EncoderInstruction::SetDynamicTableCapacity { capacity: 1024 })
    );
    assert_eq!(table.max_capacity(), 1024);
    assert!(matches!(
        receiver.process(&mut table).unwrap(),
        Some(EncoderInstruction::InsertWithNameReference { is_static: true, name_index: 1, .. })
    ));
    assert_eq!(
        receiver.process(&mut table).unwrap(),
        Some(EncoderInstruction::Duplicate { relative_index: 0 })
    );
    assert_eq!(table.len(), 2);
    let e = table.get_by_absolute_index(1).unwrap();
    assert_eq!((e.name.as_slice(), e.value.as_slice()), (&b":path"[..], &b"/long/path/value"[..]));
}

#[test]
fn decoder_stream_instructions_read_back() {
    let mut stream = DecoderStream::new();
    stream.encode_section_acknowledgment(300);
    stream.encode_stream_cancellation(8);
    stream.encode_insert_count_increment(2);
    let mut receiver = DecoderStreamReceiver::new();
    receiver.receive(stream.get_data());
    assert_eq!(
        receiver.process(5).unwrap(),
        Some(DecoderInstruction::SectionAcknowledgment { stream_id: 300 })
    );
    assert_eq!(receiver.process(5).unwrap(), Some(DecoderInstruction::StreamCancellation { stream_id: 8 }));
    assert_eq!(
        receiver.process(5).unwrap(),
        Some(DecoderInstruction::InsertCountIncrement { increment: 2 })
    );
    assert_eq!(receiver.known_received_count(), 2);
    assert_eq!(receiver.process(5).unwrap(), None);
}

#[test]
fn settings_roundtrip_through_a_payload() {
    let v = |n: u64| VarInt::new(n).unwrap();
    let wt = webtransport::Settings::new()
        .wt_enabled(v(1))
        .wt_initial_max_data(v(65536))
        .enable_webtransport_draft02(false)
        .wt_max_sessions_draft14(v(4));
    let sent = Settings::new()
        .qpack_max_table_capacity(v(4096))
        .qpack_blocked_streams(v(16))
        .h3_datagram(true)
        .enable_webtransport_server(wt);
    let mut payload = SettingsPayload::new();
    for s in sent.iter() {
        payload.add(s).unwrap();
    }
    for s in sent.wt_settings.unwrap().iter() {
        payload.add(s).unwrap();
    }
    let received = Settings::from_payload(&payload);
    assert_eq!(received, sent);
}

#[test]
fn connect_request_roundtrip_reads_draft_07_as_draft_02() {
    let sent = ConnectRequest::new("https", "example.com", "/chat")
        .draft_version(DraftVersion::Draft07)
        .origin("https://example.com")
        .available_protocols(vec!["a\"b".to_string(), "c\\d".to_string()]);
    let headers = sent.to_headers().unwrap();
    let pairs: Vec<(&[u8], &[u8])> = headers.iter().map(|h| (h.name(), h.value())).collect();
    let received = ConnectRequest::from_headers(&pairs).unwrap();
    assert_eq!(received.draft_version, DraftVersion::Draft02);
    assert_eq!(received.scheme, sent.scheme);
    assert_eq!(received.authority, sent.authority);
    assert_eq!(received.path, sent.path);
    assert_eq!(received.origin, sent.origin);
    assert_eq!(received.available_protocols, sent.available_protocols);
}

#[test]
fn required_insert_count_wraps_and_reads_back() {
    let mut encoder = DynamicEncoder::new();
    encoder.set_max_table_capacity(4096);
    encoder.set_table_capacity(4096).unwrap();
    encoder.set_peer_max_blocked_streams(10);
    let mut decoder = DynamicDecoder::new();
    decoder.set_max_table_capacity(4096);
    decoder.set_table_capacity(4096);
    for i in 0..300u32 {
        let name = format!("k{}", i).into_bytes();
        encoder.insert(name.clone(), b"v".to_vec());
        decoder.insert(name, b"v".to_vec());
    }
    // 4096 / 32 = 128 entries at most, so counts are sent modulo 256.
    assert_eq!(encoder.encode_required_insert_count(300), 300 % 256 + 1);
    assert_eq!(encoder.encode_required_insert_count(0), 0);
    let hs = headers(&[(b"k299", b"v")]);
    let mut buf = vec![0u8; 64];
    let len = encoder.encode(&mut buf, &hs, 0).unwrap();
    assert_eq!(buf[0], 45);
    assert_eq!(encoder.last_required_insert_count(), 300);
    match decoder.decode(&buf[..len]).unwrap() {
        DecodeOutput::Decoded(decoded) => assert_eq!(pairs(&decoded), pairs(&hs)),
        DecodeOutput::Blocked => panic!("the decoder holds every entry"),
    }
}

#[test]
fn remote_stream_close_raises_and_announces_the_stream_limit() {
    let mut session = Session::new(0);
    session.set_established();
    session.initialize_local_limits(FlowControlLimits { max_streams_uni: 4, ..FlowControlLimits::default() });
    for _ in 0..4 {
        session.add_received_stream(false);
    }
    session.on_remote_stream_closed(false);
    assert_eq!(session.local_limits().max_streams_uni, 5);
    assert_eq!(session.local_limits().max_streams_bidi, 0);
    assert_eq!(session.pending_capsules(), &[Capsule::MaxStreams { bidirectional: false, maximum: 5 }][..]);
    // Still at most half the window left: the next close raises it again.
    session.on_remote_stream_closed(false);
    assert_eq!(session.local_limits().max_streams_uni, 6);
    assert_eq!(session.pending_capsules()[1], Capsule::MaxStreams { bidirectional: false, maximum: 6 });
    // Once closed, nothing changes.
    session.close(None);
    let queued = session.pending_capsules().len();
    session.on_remote_stream_closed(false);
    assert_eq!(session.local_limits().max_streams_uni, 6);
    assert_eq!(session.pending_capsules().len(), queued);
}
