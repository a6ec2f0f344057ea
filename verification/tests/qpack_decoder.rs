use shiguredo_http3::qpack::{DecodeOutput, Decoder, DynamicDecoder, DynamicEncoder, Encoder, Header};
use shiguredo_http3::error::QpackError;

#[test]
fn test_decode_indexed_field() {
    let decoder = Decoder::new();

    // Required Insert Count (0) + Delta Base (0) + Indexed Field (17 = :method GET)
    let data = [0x00, 0x00, 0xd1]; // 0xd1 = 0xc0 | 17
    let headers = decoder.decode(&data).unwrap();

    assert_eq!(headers.len(), 1);
    assert_eq!(headers[0].name(), b":method");
    assert_eq!(headers[0].value(), b"GET");
}

#[test]
fn test_decode_literal_with_name_ref() {
    let decoder = Decoder::new();

    // Required Insert Count (0) + Delta Base (0) + Literal with Name Ref
    // 0x5f 0x09 = 01011111 00001001 = static ref to index 24 (:status)
    //   01 = Literal with Name Ref prefix
    //   0 = N (not never indexed)
    //   1 = T (static table)
    //   1111 = 15 (max for 4-bit prefix)
    //   0x09 = 9 (24 - 15 = 9)
    // 0x03 = length 3 (not huffman)
    // "201" = value
    let data = [0x00, 0x00, 0x5f, 0x09, 0x03, b'2', b'0', b'1'];
    let headers = decoder.decode(&data).unwrap();

    assert_eq!(headers.len(), 1);
    assert_eq!(headers[0].name(), b":status");
    assert_eq!(headers[0].value(), b"201");
}

#[test]
fn test_encode_decode_roundtrip() {
    let mut encoder = Encoder::new().use_huffman(false);
    let decoder = Decoder::new();

    let original = vec![
        Header::new(b":method", b"GET").unwrap(),
        Header::new(b":scheme", b"https").unwrap(),
        Header::new(b":path", b"/").unwrap(),
    ];

    let mut buf = vec![0u8; 128];
    let len = encoder.encode(&mut buf, &original, 0).unwrap();

    let decoded = decoder.decode(&buf[..len]).unwrap();

    assert_eq!(decoded.len(), original.len());
    for (dec, orig) in decoded.iter().zip(original.iter()) {
        assert_eq!(dec.name(), orig.name());
        assert_eq!(dec.value(), orig.value());
    }
}

#[test]
fn test_encode_decode_with_huffman() {
    let mut encoder = Encoder::new().use_huffman(true);
    let decoder = Decoder::new();

    let original = vec![
        Header::new(b":method", b"GET").unwrap(),
        Header::new(b":authority", b"www.example.com").unwrap(),
    ];

    let mut buf = vec![0u8; 128];
    let len = encoder.encode(&mut buf, &original, 0).unwrap();

    let decoded = decoder.decode(&buf[..len]).unwrap();

    assert_eq!(decoded.len(), original.len());
    assert_eq!(decoded[0].name(), b":method");
    assert_eq!(decoded[0].value(), b"GET");
    assert_eq!(decoded[1].name(), b":authority");
    assert_eq!(decoded[1].value(), b"www.example.com");
}

#[test]
fn decoder_test_decode_buffer_too_short() {
    let decoder = Decoder::new();
    assert!(decoder.decode(&[0x00]).is_err());
}

#[test]
fn test_decode_invalid_index() {
    let decoder = Decoder::new();
    // Indexed field with index 99 (out of range)
    let data = [0x00, 0x00, 0xff, 0x24]; // 0xc0 | 63 + continuation
    let result = decoder.decode(&data);
    assert!(result.is_err());
}

#[test]
fn test_dynamic_decoder_static_only() {
    let mut decoder = DynamicDecoder::new();

    // Required Insert Count (0) + Delta Base (0) + Indexed Field (17 = :method GET)
    let data = [0x00, 0x00, 0xd1]; // 0xd1 = 0xc0 | 17
    let DecodeOutput::Decoded(headers) = decoder.decode(&data).unwrap() else {
        panic!("unexpected Blocked");
    };

    assert_eq!(headers.len(), 1);
    assert_eq!(headers[0].name(), b":method");
    assert_eq!(headers[0].value(), b"GET");
    assert_eq!(decoder.last_required_insert_count(), 0);
}

#[test]
fn test_dynamic_encoder_decoder_roundtrip() {
    let mut encoder = DynamicEncoder::new().use_huffman(false);
    let mut decoder = DynamicDecoder::new();

    encoder.set_max_table_capacity(4096);
    encoder.set_table_capacity(1024);
    decoder.set_max_table_capacity(4096);
    decoder.set_table_capacity(1024);

    // 動的テーブルに同じエントリを挿入
    encoder.insert(b":authority".to_vec(), b"www.example.com".to_vec());
    decoder.insert(b":authority".to_vec(), b"www.example.com".to_vec());

    // エンコード
    let headers = vec![Header::new(b":authority", b"www.example.com").unwrap()];
    let mut buf = vec![0u8; 64];
    let len = encoder.encode(&mut buf, &headers, 0).unwrap();

    // デコード
    let DecodeOutput::Decoded(decoded) = decoder.decode(&buf[..len]).unwrap() else {
        panic!("unexpected Blocked");
    };

    assert_eq!(decoded.len(), 1);
    assert_eq!(decoded[0].name(), b":authority");
    assert_eq!(decoded[0].value(), b"www.example.com");
}

#[test]
fn test_dynamic_decoder_with_dynamic_ref() {
    let mut decoder = DynamicDecoder::new();
    decoder.set_max_table_capacity(4096);
    decoder.set_table_capacity(1024);

    // 動的テーブルにエントリを挿入
    decoder.insert(b"custom-header".to_vec(), b"custom-value".to_vec());

    // 手動でエンコードされたデータ:
    // Required Insert Count = 2 (エンコード値)
    // Base = 1, Sign = 0, Delta = 0
    // Indexed Field (dynamic, relative index 0)

    // まず Required Insert Count = 1 をエンコード
    // enc = (1 % (2 * 128)) + 1 = 2
    // Indexed dynamic: 0x80 | 0 = 0x80 (relative index 0, T=0)
    let data = [0x02, 0x00, 0x80];
    let DecodeOutput::Decoded(headers) = decoder.decode(&data).unwrap() else {
        panic!("unexpected Blocked");
    };

    assert_eq!(headers.len(), 1);
    assert_eq!(headers[0].name(), b"custom-header");
    assert_eq!(headers[0].value(), b"custom-value");
    // 動的テーブルを参照したので Required Insert Count > 0
    assert_eq!(decoder.last_required_insert_count(), 1);
}

#[test]
fn test_dynamic_decoder_blocking() {
    let mut decoder = DynamicDecoder::new();
    decoder.set_max_table_capacity(4096);
    decoder.set_table_capacity(1024);

    // 動的テーブルが空 (insert_count = 0) のまま
    // Required Insert Count = 1 を要求するエンコード済みデータ
    // enc_insert_count = 2 (Required Insert Count = 1 の場合)
    let data = [0x02, 0x00, 0x80];
    let result = decoder.decode(&data).unwrap();

    // insert_count (0) < required_insert_count (1) なのでブロック
    assert!(matches!(result, DecodeOutput::Blocked));
}

#[test]
fn test_dynamic_ref_absolute_index_exceeds_ric() {
    let mut decoder = DynamicDecoder::new();
    decoder.set_max_table_capacity(4096);
    decoder.set_table_capacity(1024);

    // 動的テーブルにエントリを 3 つ挿入 (insert_count = 3)
    decoder.insert(b"name0".to_vec(), b"value0".to_vec()); // abs=0
    decoder.insert(b"name1".to_vec(), b"value1".to_vec()); // abs=1
    decoder.insert(b"name2".to_vec(), b"value2".to_vec()); // abs=2

    // Required Insert Count = 2, Base = 3 (Sign=0, DeltaBase=1)
    // → Base > RIC なので relative_index=0 → absolute=2 >= RIC=2 → エラー
    //
    // enc_insert_count = (2 % (2*128)) + 1 = 3
    // DeltaBase = 3 - 2 = 1, Sign = 0
    // Indexed dynamic: relative_index=0, T=0 → 0x80
    let data = [0x03, 0x01, 0x80];
    let result = decoder.decode(&data);
    assert!(
        result.is_err(),
        "absolute index >= RIC should be QPACK_DECOMPRESSION_FAILED"
    );
}


#[test]
fn decoder_static_roundtrip_never_indexed_literal() {
    let mut encoder = Encoder::new().use_huffman(false);
    let decoder = Decoder::new();
    let original = vec![
        Header::new(b"x-custom", b"v").unwrap().with_never_indexed(true),
        Header::new(b":status", b"204").unwrap(),
    ];
    let mut buf = vec![0u8; 64];
    let len = encoder.encode(&mut buf, &original, 0).unwrap();
    let decoded = decoder.decode(&buf[..len]).unwrap();
    assert_eq!(decoded.len(), 2);
    assert_eq!(decoded[0].name(), b"x-custom");
    assert_eq!(decoded[0].value(), b"v");
    assert!(!decoded[0].never_indexed());
    assert_eq!(decoded[1].value(), b"204");
}

#[test]
fn decoder_field_section_size_limit() {
    let decoder = Decoder::new().max_field_section_size(40);
    // :method GET takes 7 + 3 + 32 = 42 bytes, above the limit.
    assert_eq!(decoder.decode(&[0x00, 0x00, 0xd1]), Err(QpackError::DecodeFailed));
    // An empty section decodes to no headers.
    assert_eq!(decoder.decode(&[0x00, 0x00]).unwrap().len(), 0);
}

#[test]
fn decoder_errors_by_kind() {
    let decoder = Decoder::new();
    assert_eq!(decoder.decode(&[0x00]), Err(QpackError::BufferTooShort));
    // A nonzero Required Insert Count needs the dynamic table.
    assert_eq!(decoder.decode(&[0x01, 0x00]), Err(QpackError::DecodeFailed));
    // Index 99 is past the static table.
    assert_eq!(decoder.decode(&[0x00, 0x00, 0xff, 0x24]), Err(QpackError::InvalidIndex(99)));
    // A dynamic indexed line is refused.
    assert_eq!(decoder.decode(&[0x00, 0x00, 0x80]), Err(QpackError::DecodeFailed));
}

#[test]
fn dynamic_decoder_post_base_and_overflow() {
    let mut decoder = DynamicDecoder::new();
    decoder.set_max_table_capacity(4096);
    decoder.set_table_capacity(1024);
    decoder.insert(b"a".to_vec(), b"1".to_vec());
    decoder.insert(b"b".to_vec(), b"2".to_vec());
    // RIC 2 (encoded 3), Base 1 (sign, delta 0): post-base index 0 is entry 1.
    let DecodeOutput::Decoded(h) = decoder.decode(&[0x03, 0x80, 0x10]).unwrap() else {
        panic!("unexpected Blocked");
    };
    assert_eq!(h[0].name(), b"b");
    assert_eq!(decoder.last_required_insert_count(), 2);
    // RIC 2 with a sign and delta 2 leaves no base.
    assert_eq!(decoder.decode(&[0x03, 0x82, 0x10]).err(), Some(QpackError::DecodeFailed));
}
