use shiguredo_http3::qpack::{find_static_entry, get_static_entry, STATIC_TABLE, STATIC_TABLE_LEN};

#[test]
fn test_static_table_len() {
    assert_eq!(STATIC_TABLE().len(), STATIC_TABLE_LEN);
    assert_eq!(STATIC_TABLE_LEN, 99);
}

#[test]
fn test_get_static_entry() {
    let entry = get_static_entry(0).expect("test must succeed");
    assert_eq!(entry.name(), b":authority");
    assert_eq!(entry.value(), b"");

    let entry = get_static_entry(17).expect("test must succeed");
    assert_eq!(entry.name(), b":method");
    assert_eq!(entry.value(), b"GET");

    let entry = get_static_entry(25).expect("test must succeed");
    assert_eq!(entry.name(), b":status");
    assert_eq!(entry.value(), b"200");

    let entry = get_static_entry(98).expect("test must succeed");
    assert_eq!(entry.name(), b"x-frame-options");
    assert_eq!(entry.value(), b"sameorigin");

    assert!(get_static_entry(99).is_none());
}

#[test]
fn test_find_static_entry_exact_match() {
    let (exact, name_only) = find_static_entry(b":method", b"GET");
    assert_eq!(exact, Some(17));
    assert_eq!(name_only, Some(17));

    let (exact, name_only) = find_static_entry(b":status", b"200");
    assert_eq!(exact, Some(25));
    assert_eq!(name_only, Some(25));
}

#[test]
fn test_find_static_entry_name_only() {
    let (exact, name_only) = find_static_entry(b":method", b"PATCH");
    assert_eq!(exact, None);
    assert_eq!(name_only, Some(15));

    let (exact, name_only) = find_static_entry(b":status", b"201");
    assert_eq!(exact, None);
    assert_eq!(name_only, Some(24));
}

#[test]
fn test_find_static_entry_not_found() {
    let (exact, name_only) = find_static_entry(b"x-custom-header", b"value");
    assert_eq!(exact, None);
    assert_eq!(name_only, None);
}
