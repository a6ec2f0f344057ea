use shiguredo_http3::error::QpackError;
use shiguredo_http3::qpack::{DynamicTable, EncoderInstruction, EncoderStream, EncoderStreamReceiver};

#[test]
fn test_encode_set_capacity() {
    let mut stream = EncoderStream::new();
    stream.set_max_table_capacity(4096);
    stream.encode_set_capacity(220).unwrap();

    // 001xxxxx with 5-bit prefix
    // 220 = 31 + 189, 189 = 0xbd
    // 0x3f (001_11111) + 0xbd (10111101) + 0x01
    assert_eq!(stream.get_data(), &[0x3f, 0xbd, 0x01]);
}

#[test]
fn test_encode_set_capacity_exceeds_max() {
    let mut stream = EncoderStream::new();
    stream.set_max_table_capacity(100);
    assert_eq!(
        stream.encode_set_capacity(200),
        Err(QpackError::CapacityExceeded)
    );
    assert!(stream.get_data().is_empty());
}

#[test]
fn test_encode_set_capacity_when_disabled() {
    let mut stream = EncoderStream::new();
    // max_table_capacity はデフォルト 0
    assert_eq!(
        stream.encode_set_capacity(100),
        Err(QpackError::DynamicTableDisabled)
    );
    assert!(stream.get_data().is_empty());
}

#[test]
fn test_encode_insert_with_name_ref_static() {
    let mut stream = EncoderStream::new();
    stream.set_max_table_capacity(4096);
    // Static table index 0 (:authority), value "www.example.com"
    stream
        .encode_insert_with_name_ref(true, 0, b"www.example.com")
        .unwrap();

    let data = stream.get_data();
    // 0xc0 = 11000000 (static, index 0)
    assert_eq!(data[0], 0xc0);
}

#[test]
fn test_encode_insert_when_disabled() {
    let mut stream = EncoderStream::new();
    // max_table_capacity はデフォルト 0
    assert_eq!(
        stream.encode_insert_with_name_ref(true, 0, b"value"),
        Err(QpackError::DynamicTableDisabled)
    );
    assert_eq!(
        stream.encode_insert_with_literal_name(b"name", b"value"),
        Err(QpackError::DynamicTableDisabled)
    );
    assert_eq!(
        stream.encode_duplicate(0),
        Err(QpackError::DynamicTableDisabled)
    );
    assert!(stream.get_data().is_empty());
}

#[test]
fn test_encode_insert_with_literal_name() {
    let mut stream = EncoderStream::new();
    stream.set_max_table_capacity(4096);
    stream
        .encode_insert_with_literal_name(b"custom-key", b"custom-value")
        .unwrap();

    let data = stream.get_data();
    // 01xxxxxx prefix
    assert_eq!(data[0] & 0xc0, 0x40);
}

#[test]
fn test_encode_duplicate() {
    let mut stream = EncoderStream::new();
    stream.set_max_table_capacity(4096);
    stream.encode_duplicate(5).unwrap();

    // 000xxxxx with 5-bit prefix
    assert_eq!(stream.get_data(), &[0x05]);
}

#[test]
fn test_decode_insert_with_name_ref_static() {
    let mut table = DynamicTable::with_capacity(4096);
    let mut receiver = EncoderStreamReceiver::new();
    receiver.set_max_table_capacity(4096);

    // Insert with static table ref (index 0 = :authority)
    // 0xc0 = static, index 0
    // 0x0f = length 15 (not huffman)
    // "www.example.com"
    let mut data = vec![0xc0, 0x0f];
    data.extend_from_slice(b"www.example.com");
    receiver.receive(&data);

    let instruction = receiver.process(&mut table).unwrap().unwrap();
    match instruction {
        EncoderInstruction::InsertWithNameReference {
            is_static,
            name_index,
            value,
        } => {
            assert!(is_static);
            assert_eq!(name_index, 0);
            assert_eq!(value, &b"www.example.com"[..]);
        }
        _ => panic!("Unexpected instruction"),
    }

    // テーブルにエントリが追加されている
    assert_eq!(table.len(), 1);
    let entry = table.get_by_absolute_index(0).unwrap();
    assert_eq!(entry.name, &b":authority"[..]);
    assert_eq!(entry.value, &b"www.example.com"[..]);
}
