use shiguredo_http3::varint::{decode, DecodeError, VarInt, VarIntError};

#[test]
fn test_new_rejects_out_of_range() {
    assert_eq!(
        VarInt::new(VarInt::MAX().get() + 1),
        Err(VarIntError::OutOfRange { value: VarInt::MAX().get() + 1 })
    );
    assert_eq!(VarInt::new(u64::MAX), Err(VarIntError::OutOfRange { value: u64::MAX }));
}

#[test]
fn test_from_static_const_context() {
    let zero: VarInt = VarInt::from_static(0);
    let one_byte_boundary: VarInt = VarInt::from_static(63);
    let two_byte_boundary: VarInt = VarInt::from_static(16_383);
    let four_byte_boundary: VarInt = VarInt::from_static(1_073_741_823);
    let max: VarInt = VarInt::from_static((1u64 << 62) - 1);
    assert_eq!(zero, VarInt::ZERO());
    assert_eq!(one_byte_boundary.encoded_len(), 1);
    assert_eq!(two_byte_boundary.encoded_len(), 2);
    assert_eq!(four_byte_boundary.encoded_len(), 4);
    assert_eq!(max, VarInt::MAX());
}

#[test]
fn test_error_display_contains_rfc_reference() {
    let err = VarIntError::OutOfRange { value: VarInt::MAX().get() + 1 };
    let s = err.to_string();
    assert!(s.contains(&format!("{}", VarInt::MAX().get() + 1)));
    assert!(s.contains("RFC 9000"));
    assert!(s.contains("exceeds"));
}

#[test]
fn test_try_from_u64_max_is_error() {
    assert!(VarInt::try_from(u64::MAX).is_err());
    assert!(VarInt::try_from(VarInt::MAX().get()).is_ok());
}

#[test]
fn test_try_from_usize_rejects_out_of_range_on_64bit() {
    if usize::BITS == 64 {
        let too_large = (VarInt::MAX().get() + 1) as usize;
        assert!(VarInt::try_from(too_large).is_err());
    }
}

#[test]
fn test_from_validated_parts_boundaries() {
    assert_eq!(VarInt::from_validated_parts(0).get(), 0);
    assert_eq!(VarInt::from_validated_parts(VarInt::MAX().get()), VarInt::MAX());
}

#[test]
fn varint_test_decode_buffer_too_short() {
    assert_eq!(decode(&[]), Err(DecodeError::BufferTooShort));
    assert_eq!(decode(&[0x40]), Err(DecodeError::BufferTooShort));
}

#[test]
fn varint_roundtrip_boundaries() {
    for v in [0u64, 63, 64, 16_383, 16_384, 1_073_741_823, 1_073_741_824, (1u64 << 62) - 1] {
        let x = VarInt::new(v).unwrap();
        let mut buf = Vec::new();
        shiguredo_http3::varint::encode_into_vec(&mut buf, x);
        assert_eq!(buf.len(), x.encoded_len());
        assert_eq!(decode(&buf), Ok((x, buf.len())));
    }
}

#[test]
fn varint_encoding_exact_bytes() {
    let mut buf = Vec::new();
    shiguredo_http3::varint::encode_into_vec(&mut buf, VarInt::from_static(15293));
    assert_eq!(buf, vec![0x7b, 0xbd]);
    assert_eq!(VarInt::from_static(15293).to_string(), "15293");
}
