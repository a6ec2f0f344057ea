use shiguredo_http3::qpack::{Header, HeaderError};

#[test]
fn test_new_simple_header() {
    let h = Header::new(b":method", b"GET").expect("test must succeed");
    assert_eq!(h.name(), b":method");
    assert_eq!(h.value(), b"GET");
}

#[test]
fn test_new_empty_value_allowed() {
    let h = Header::new(b":authority", b"").expect("test must succeed");
    assert_eq!(h.value(), b"");
}

#[test]
fn test_new_uppercase_field_name_rejected() {
    assert!(matches!(
        Header::new(b"Host", b"example.com"),
        Err(HeaderError::UppercaseFieldName { .. })
    ));
}

#[test]
fn test_new_invalid_field_name_byte_rejected() {
    assert!(matches!(
        Header::new(b"x hdr", b"v"),
        Err(HeaderError::InvalidFieldNameByte { .. })
    ));
}

#[test]
fn test_new_empty_field_name_rejected() {
    assert!(matches!(
        Header::new(b"", b"v"),
        Err(HeaderError::EmptyFieldName)
    ));
}

#[test]
fn test_new_field_value_with_cr_rejected() {
    assert!(matches!(
        Header::new(b":path", b"/foo\r\nX-Inject: 1"),
        Err(HeaderError::InvalidFieldValueByte { byte: 0x0d, .. })
    ));
}

#[test]
fn test_new_field_value_with_lf_rejected() {
    assert!(matches!(
        Header::new(b"x-h", b"v\nv"),
        Err(HeaderError::InvalidFieldValueByte { byte: 0x0a, .. })
    ));
}

#[test]
fn test_new_field_value_with_nul_rejected() {
    assert!(matches!(
        Header::new(b"x-h", b"v\0v"),
        Err(HeaderError::InvalidFieldValueByte { byte: 0x00, .. })
    ));
}

#[test]
fn test_new_field_value_leading_space_rejected() {
    assert!(matches!(
        Header::new(b"x-h", b" v"),
        Err(HeaderError::FieldValueLeadingOrTrailingWhitespace { .. })
    ));
}

#[test]
fn test_new_field_value_trailing_tab_rejected() {
    assert!(matches!(
        Header::new(b"x-h", b"v\t"),
        Err(HeaderError::FieldValueLeadingOrTrailingWhitespace { .. })
    ));
}

#[test]
fn test_new_unknown_pseudo_header_rejected() {
    assert!(matches!(
        Header::new(b":unknown", b"value"),
        Err(HeaderError::UnknownPseudoHeader { .. })
    ));
}

#[test]
fn test_new_invalid_method_rejected() {
    assert!(matches!(
        Header::new(b":method", b"GET POST"),
        Err(HeaderError::InvalidPseudoHeaderValue { .. })
    ));
}

#[test]
fn test_new_invalid_scheme_rejected() {
    assert!(matches!(
        Header::new(b":scheme", b"1http"),
        Err(HeaderError::InvalidPseudoHeaderValue { .. })
    ));
}

#[test]
fn test_new_invalid_status_rejected() {
    assert!(matches!(
        Header::new(b":status", b"20"),
        Err(HeaderError::InvalidPseudoHeaderValue { .. })
    ));
    assert!(matches!(
        Header::new(b":status", b"abc"),
        Err(HeaderError::InvalidPseudoHeaderValue { .. })
    ));
}

#[test]
fn test_from_static_ok() {
    let h = Header::from_static(b":method", b"GET");
    assert_eq!(h.name(), b":method");
    assert_eq!(h.value(), b"GET");
}

#[test]
fn test_size() {
    let h = Header::new(b":method", b"GET").expect("test must succeed");
    assert_eq!(h.size(), 7 + 3 + 32);
}

#[test]
fn test_from_validated_parts_internal_skips_validation() {
    // デコーダー経路が検査をスキップして不正データを Header に注入できること。
    // 通常 API (`Header::new`) では大文字名で reject されることもあわせて確認。
    let h = Header::from_validated_parts_internal(
        b"Host".to_vec(),
        b"example".to_vec(),
    );
    assert_eq!(h.name(), b"Host");
    assert!(matches!(
        Header::new(h.name(), h.value()),
        Err(HeaderError::UppercaseFieldName { .. })
    ));
}

#[test]
fn test_display_escapes_crlf_in_name() {
    // CR / LF などの制御文字がそのまま出力されないことを確認 (log injection 対策)
    let err = Header::new(b"x\r\nzz", b"v").unwrap_err();
    let msg = err.to_string();
    assert!(!msg.contains('\r'), "CR must be escaped: {msg}");
    assert!(!msg.contains('\n'), "LF must be escaped: {msg}");
    assert!(msg.contains("\\r"), "should contain escaped \\r: {msg}");
    assert!(msg.contains("\\n"), "should contain escaped \\n: {msg}");
}

#[test]
fn test_display_truncates_long_name() {
    // 65 バイト以上の name は先頭 64 バイトに切り詰めて "..." を付加する
    let name = vec![b'A'; 65];
    let err = Header::new(&name, b"v").unwrap_err();
    let msg = err.to_string();
    assert!(msg.ends_with("..."), "long name must be truncated: {msg}");
}

#[test]
fn test_display_does_not_truncate_at_64_bytes() {
    // ちょうど 64 バイトでは "..." を付けない (境界値)
    let name = vec![b'A'; 64];
    let err = Header::new(&name, b"v").unwrap_err();
    let msg = err.to_string();
    assert!(
        !msg.ends_with("..."),
        "64 bytes name must not be truncated: {msg}"
    );
}
