use shiguredo_http3::qpack::{estimate_encoded_size, DynamicEncoder, Encoder, Header};

#[test]
fn test_encode_indexed_field() {
    let mut encoder = Encoder::new().use_huffman(false);
    let headers = vec![Header::new(b":method", b"GET").expect("test must succeed")];

    let mut buf = vec![0u8; 64];
    let len = encoder
        .encode(&mut buf, &headers, 0)
        .expect("test must succeed");

    // Required Insert Count (0) + Delta Base (0) + Indexed Field (17)
    assert!(len >= 3);
    assert_eq!(buf[0], 0x00); // Required Insert Count
    assert_eq!(buf[1], 0x00); // Delta Base
    assert_eq!(buf[2], 0xc0 | 17); // Indexed static table entry 17 (:method GET)
}

#[test]
fn test_encode_literal_with_name_ref() {
    let mut encoder = Encoder::new().use_huffman(false);
    let headers = vec![Header::new(b":status", b"201").expect("test must succeed")];

    let mut buf = vec![0u8; 64];
    let len = encoder
        .encode(&mut buf, &headers, 0)
        .expect("test must succeed");

    assert!(len >= 3);
    assert_eq!(buf[0], 0x00); // Required Insert Count
    assert_eq!(buf[1], 0x00); // Delta Base
    // Name reference to static table (24 is first :status)
}

#[test]
fn test_encode_literal_with_literal_name() {
    let mut encoder = Encoder::new().use_huffman(false);
    let headers = vec![Header::new(b"x-custom", b"value").expect("test must succeed")];

    let mut buf = vec![0u8; 64];
    let len = encoder
        .encode(&mut buf, &headers, 0)
        .expect("test must succeed");

    assert!(len > 4);
    assert_eq!(buf[0], 0x00); // Required Insert Count
    assert_eq!(buf[1], 0x00); // Delta Base
    // Literal with Literal Name: 001N|H|LLL
    // N=0, H=0, LLL=7 (max for 3-bit), 続きに 1 (8-7=1)
    // "x-custom" は 8 バイトなので 3-bit prefix を超える
    assert_eq!(buf[2], 0x27); // 0x20 | 7 = 0x27
    assert_eq!(buf[3], 0x01); // 8 - 7 = 1
}

#[test]
fn test_encode_multiple_headers() {
    let mut encoder = Encoder::new();
    let headers = vec![
        Header::new(b":method", b"GET").expect("test must succeed"),
        Header::new(b":scheme", b"https").expect("test must succeed"),
        Header::new(b":path", b"/").expect("test must succeed"),
        Header::new(b":authority", b"example.com").expect("test must succeed"),
    ];

    let mut buf = vec![0u8; 128];
    let len = encoder
        .encode(&mut buf, &headers, 0)
        .expect("test must succeed");
    assert!(len > 0);
}

#[test]
fn test_static_table_boundary() {
    // Test encoding index >= 64 (needs multi-byte encoding)
    let mut encoder = Encoder::new();

    // Index 98 (x-frame-options: sameorigin)
    let headers =
        vec![Header::new(b"x-frame-options", b"sameorigin").expect("test must succeed")];
    let mut buf = vec![0u8; 64];
    let len = encoder
        .encode(&mut buf, &headers, 0)
        .expect("test must succeed");
    assert!(len > 0);
}

#[test]
fn test_estimate_encoded_size() {
    let headers = vec![
        Header::new(b":method", b"GET").expect("test must succeed"),
        Header::new(b"x-custom", b"value").expect("test must succeed"),
    ];
    let estimate = estimate_encoded_size(&headers);
    assert!(estimate > 0);
}

#[test]
fn test_dynamic_encoder_static_only() {
    let mut encoder = DynamicEncoder::new().use_huffman(false);
    let headers = vec![Header::new(b":method", b"GET").expect("test must succeed")];

    let mut buf = vec![0u8; 64];
    let len = encoder
        .encode_with_dynamic(&mut buf, &headers)
        .expect("test must succeed");

    assert!(len >= 3);
    assert_eq!(buf[0], 0x00); // Required Insert Count
    assert_eq!(buf[1], 0x00); // Delta Base
    assert_eq!(buf[2], 0xc0 | 17); // Indexed static table entry 17
}

#[test]
fn test_dynamic_encoder_with_dynamic_table() {
    let mut encoder = DynamicEncoder::new().use_huffman(false);
    encoder.set_max_table_capacity(4096);
    encoder
        .set_table_capacity(1024)
        .expect("test: capacity within max");
    encoder.set_peer_max_blocked_streams(100);

    // 動的テーブルにエントリを挿入
    encoder.insert(b":authority".to_vec(), b"www.example.com".to_vec());
    assert_eq!(encoder.table().len(), 1);

    // エンコード
    let headers =
        vec![Header::new(b":authority", b"www.example.com").expect("test must succeed")];
    let mut buf = vec![0u8; 64];
    let len = encoder
        .encode_with_dynamic(&mut buf, &headers)
        .expect("test must succeed");

    // Required Insert Count > 0 (動的テーブルを参照)
    assert!(len >= 3);
    // Encoded Insert Count = (1 % (2 * (4096/32))) + 1 = 2
    assert!(buf[0] > 0);
}

#[test]
fn test_dynamic_encoder_blocked_streams_limit() {
    let mut encoder = DynamicEncoder::new().use_huffman(false);
    encoder.set_max_table_capacity(4096);
    encoder
        .set_table_capacity(1024)
        .expect("test: capacity within max");
    encoder.set_peer_max_blocked_streams(2);

    // 動的テーブルにエントリを挿入
    encoder.insert(b":authority".to_vec(), b"www.example.com".to_vec());

    // blocked_streams_count < peer_max_blocked_streams: 動的テーブルを使用
    let headers =
        vec![Header::new(b":authority", b"www.example.com").expect("test must succeed")];
    let mut buf = vec![0u8; 64];
    let _len = encoder
        .encode(&mut buf, &headers, 0)
        .expect("test must succeed");
    assert!(buf[0] > 0); // RIC > 0

    // blocked_streams_count >= peer_max_blocked_streams: 静的テーブルのみ
    let mut buf2 = vec![0u8; 64];
    let len2 = encoder
        .encode(&mut buf2, &headers, 2)
        .expect("test must succeed");
    assert_eq!(buf2[0], 0x00); // RIC = 0
    assert!(len2 > 0);
}

#[test]
fn test_dynamic_encoder_prefer_dynamic() {
    let mut encoder = DynamicEncoder::new().use_huffman(false);
    encoder.set_max_table_capacity(4096);
    encoder
        .set_table_capacity(1024)
        .expect("test: capacity within max");
    encoder.set_peer_max_blocked_streams(100);

    // :method = GET は静的テーブルにある (インデックス 17)
    // しかし、動的テーブルに追加すると動的テーブルが優先される
    encoder.insert(b":method".to_vec(), b"GET".to_vec());

    let headers = vec![Header::new(b":method", b"GET").expect("test must succeed")];
    let mut buf = vec![0u8; 64];
    let len = encoder
        .encode_with_dynamic(&mut buf, &headers)
        .expect("test must succeed");

    assert!(len >= 3);
    // Required Insert Count が設定されている
    assert!(buf[0] > 0);
}

#[test]
fn test_dynamic_encoder_insert_with_static_ref() {
    let mut encoder = DynamicEncoder::new();
    encoder.set_max_table_capacity(4096);
    encoder
        .set_table_capacity(1024)
        .expect("test: capacity within max");

    // :authority (静的テーブルインデックス 0) を参照して挿入
    let idx = encoder.insert_with_static_name_ref(0, b"example.com".to_vec());
    assert_eq!(idx, Some(0));

    let entry = encoder
        .table()
        .get_by_absolute_index(0)
        .expect("test must succeed");
    assert_eq!(entry.name, b":authority");
    assert_eq!(entry.value, b"example.com");
}

#[test]
fn ack_section_returns_error_for_untracked_stream() {
    let mut encoder = DynamicEncoder::new();
    // track_section していないストリーム ID に対する ack_section は
    // QPACK_DECODER_STREAM_ERROR (RFC 9204 Section 4.4.1)
    assert!(encoder.ack_section(42).is_err());
}

#[test]
fn ack_section_returns_error_for_fully_acked_stream() {
    let mut encoder = DynamicEncoder::new();
    encoder.track_section(1, 5);
    assert!(encoder.ack_section(1).is_ok());
    // 2 回目の ack は全て ack 済みなのでエラー
    assert!(encoder.ack_section(1).is_err());
}

#[test]
fn encode_required_insert_count_returns_0_for_zero_entries_and_zero_ric() {
    let encoder = DynamicEncoder::new();
    assert_eq!(encoder.encode_required_insert_count(0), 0);
}

#[test]
fn encode_required_insert_count_falls_back_to_0_for_zero_entries_and_nonzero_ric() {
    // With no table allowed by the peer the encoded count falls back to 0.
    let encoder = DynamicEncoder::new();
    let result = encoder.encode_required_insert_count(5);
    assert_eq!(result, 0);
}

#[test]
fn post_base_indexed_field_line_produces_correct_bits() {
    // RFC 9204 Section 4.5.3: 0001NNNN, 4-bit prefix
    // absolute_index=5, base=3 → post_base_index=2
    let encoder = DynamicEncoder::new();
    let mut buf = vec![0u8; 16];
    let len = encoder
        .encode_indexed_field_dynamic(&mut buf, 5, 3)
        .expect("test must succeed");
    assert_eq!(len, 1);
    // 0x10 | 2 = 0x12 (00010010)
    assert_eq!(buf[0], 0x12);
}

#[test]
fn post_base_indexed_field_line_works_with_index_0() {
    // absolute_index == base → post_base_index=0
    let encoder = DynamicEncoder::new();
    let mut buf = vec![0u8; 16];
    let len = encoder
        .encode_indexed_field_dynamic(&mut buf, 3, 3)
        .expect("test must succeed");
    assert_eq!(len, 1);
    // 0x10 | 0 = 0x10 (00010000)
    assert_eq!(buf[0], 0x10);
}

#[test]
fn post_base_name_reference_produces_correct_bits() {
    // RFC 9204 Section 4.5.5: 0000NMMM, N=0, 3-bit prefix
    // absolute_index=5, base=3 → post_base_index=2
    let encoder = DynamicEncoder::new().use_huffman(false);
    let mut buf = vec![0u8; 64];
    let len = encoder
        .encode_literal_with_name_ref_dynamic(&mut buf, 5, b"value", 3, false)
        .expect("test must succeed");
    // 最初のバイト: 0x00 | 2 = 0x02 (00000010)
    assert_eq!(buf[0], 0x02);
    // 値のエンコード: 長さ 5 + "value" = 6 バイト
    assert_eq!(len, 1 + 1 + 5); // prefix(1) + value_len(1) + value(5)
}

#[test]
fn relative_index_representation_still_works() {
    // absolute_index=1, base=3 → relative_index=1
    let encoder = DynamicEncoder::new();
    let mut buf = vec![0u8; 16];
    let len = encoder
        .encode_indexed_field_dynamic(&mut buf, 1, 3)
        .expect("test must succeed");
    assert_eq!(len, 1);
    // 0x80 | 1 = 0x81 (10000001)
    assert_eq!(buf[0], 0x81);
}
