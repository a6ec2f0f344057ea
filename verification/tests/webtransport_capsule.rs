use shiguredo_http3::varint::VarInt;
use shiguredo_http3::webtransport::capsule::CapsuleEncodeError;
use shiguredo_http3::webtransport::{
    Capsule, CapsuleType, CapsuleValidationError, MAX_STREAMS_LIMIT, PROHIBITED_WT_MAX_STREAM_DATA_CAPSULE_TYPE,
    PROHIBITED_WT_STREAM_DATA_BLOCKED_CAPSULE_TYPE,
};

#[test]
fn test_decode_empty_buffer() {
    let result = Capsule::decode(&[]);
    assert!(matches!(result, Ok(None)));
}

#[test]
fn test_encode_rejects_out_of_range_unknown_type() {
    // Unknown の capsule_type は生の u64 のため VarInt 範囲外があり得る。
    // encode は panic せずエラーを返し、buf を変更しない。
    let capsule = Capsule::Unknown {
        capsule_type: u64::MAX,
        payload: vec![0x01],
    };
    let mut buf = Vec::new();
    assert_eq!(
        capsule.encode(&mut buf),
        Err(CapsuleEncodeError::ValueOutOfVarIntRange)
    );
    assert!(buf.is_empty(), "失敗時に buf が変更されている: {buf:?}");

    assert_eq!(
        capsule.encode_as_data_frame(&mut buf),
        Err(CapsuleEncodeError::ValueOutOfVarIntRange)
    );
    assert!(buf.is_empty(), "失敗時に buf が変更されている: {buf:?}");
}

#[test]
fn test_encode_accepts_max_varint() {
    // VarInt の最大値は wire 表現できる
    let maximum = VarInt::MAX().get();
    let capsule = Capsule::MaxData { maximum };
    let mut buf = Vec::new();
    capsule
        .encode(&mut buf)
        .expect("VarInt 最大値は符号化できる");
    assert!(!buf.is_empty());
    let mut framed = Vec::new();
    capsule
        .encode_as_data_frame(&mut framed)
        .expect("VarInt 最大値は DATA フレーム化できる");
    assert!(framed.len() > buf.len());
}

#[test]
fn test_capsule_type_from_type() {
    assert_eq!(
        CapsuleType::from_type(0x2843),
        Some(CapsuleType::CloseSession)
    );
    assert_eq!(
        CapsuleType::from_type(0x78ae),
        Some(CapsuleType::DrainSession)
    );
    assert_eq!(
        CapsuleType::from_type(0x190B4D3D),
        Some(CapsuleType::MaxData)
    );
    assert_eq!(
        CapsuleType::from_type(0x190B4D3F),
        Some(CapsuleType::MaxStreamsBidi)
    );
    assert_eq!(
        CapsuleType::from_type(0x190B4D40),
        Some(CapsuleType::MaxStreamsUni)
    );
    assert_eq!(CapsuleType::from_type(0x99), None);
}

#[test]
fn test_is_flow_control() {
    assert!(
        !Capsule::CloseSession {
            error_code: 0,
            message: String::new()
        }
        .is_flow_control()
    );
    assert!(!Capsule::DrainSession.is_flow_control());
    assert!(Capsule::MaxData { maximum: 0 }.is_flow_control());
    assert!(
        Capsule::MaxStreams {
            bidirectional: true,
            maximum: 0
        }
        .is_flow_control()
    );
    assert!(Capsule::DataBlocked { maximum: 0 }.is_flow_control());
    assert!(
        Capsule::StreamsBlocked {
            bidirectional: true,
            maximum: 0
        }
        .is_flow_control()
    );
}

#[test]
fn test_is_prohibited_in_http3_type() {
    assert!(Capsule::is_prohibited_in_http3_type(
        PROHIBITED_WT_MAX_STREAM_DATA_CAPSULE_TYPE
    ));
    assert!(Capsule::is_prohibited_in_http3_type(
        PROHIBITED_WT_STREAM_DATA_BLOCKED_CAPSULE_TYPE
    ));
    assert!(!Capsule::is_prohibited_in_http3_type(
        CapsuleType::MaxData.value()
    ));
}

#[test]
fn test_validate_max_streams() {
    // 正常: 増加
    assert!(Capsule::validate_max_streams(10, 5).is_ok());
    // 正常: 上限値
    assert!(Capsule::validate_max_streams(MAX_STREAMS_LIMIT, 0).is_ok());
    // エラー: 上限超過
    assert_eq!(
        Capsule::validate_max_streams(MAX_STREAMS_LIMIT + 1, 0),
        Err(CapsuleValidationError::MaxStreamsExceedsLimit)
    );
    // エラー: 同値 (draft-16: "does not increase")
    assert_eq!(
        Capsule::validate_max_streams(10, 10),
        Err(CapsuleValidationError::MaxStreamsDecreased)
    );
    // エラー: 減少
    assert_eq!(
        Capsule::validate_max_streams(5, 10),
        Err(CapsuleValidationError::MaxStreamsDecreased)
    );
}

#[test]
fn test_validate_max_data() {
    // 正常: 増加
    assert!(Capsule::validate_max_data(100, 50).is_ok());
    // 正常: VarInt 上限値
    assert!(Capsule::validate_max_data(VarInt::MAX().get(), 0).is_ok());
    // エラー: 同値 (draft-16: "does not increase")
    assert_eq!(
        Capsule::validate_max_data(100, 100),
        Err(CapsuleValidationError::MaxDataDecreased)
    );
    // エラー: 減少
    assert_eq!(
        Capsule::validate_max_data(50, 100),
        Err(CapsuleValidationError::MaxDataDecreased)
    );
    // エラー: VarInt 上限超過
    assert_eq!(
        Capsule::validate_max_data(VarInt::MAX().get() + 1, 0),
        Err(CapsuleValidationError::MaxDataExceedsLimit)
    );
}

#[test]
fn test_is_prohibited_in_http3() {
    let c = Capsule::Unknown {
        capsule_type: PROHIBITED_WT_MAX_STREAM_DATA_CAPSULE_TYPE,
        payload: vec![],
    };
    assert!(c.is_prohibited_in_http3());
}
