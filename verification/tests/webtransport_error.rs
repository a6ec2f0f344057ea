use shiguredo_http3::webtransport::{ApplicationErrorCode, Error, ErrorCode};

#[test]
fn test_error_code_from_code() {
    assert_eq!(
        ErrorCode::from_code(0x3994bd84),
        Some(ErrorCode::BufferedStreamRejected)
    );
    assert_eq!(
        ErrorCode::from_code(0x170d7b68),
        Some(ErrorCode::SessionGone)
    );
    assert_eq!(
        ErrorCode::from_code(0x045d4487),
        Some(ErrorCode::FlowControlError)
    );
    assert_eq!(ErrorCode::from_code(0x0817b3dd), Some(ErrorCode::AlpnError));
    assert_eq!(
        ErrorCode::from_code(0x212c0d48),
        Some(ErrorCode::RequirementsNotMet)
    );
    assert_eq!(ErrorCode::from_code(0x12345678), None);
}

#[test]
fn test_application_error_code_reserved() {
    // 予約コードポイントはスキップされる
    for i in 0..10 {
        let reserved = 0x1f * i + 0x21;
        assert_eq!(ApplicationErrorCode::from_http3_code(reserved), None);
    }
}

#[test]
fn test_application_error_code_range() {
    assert!(!ApplicationErrorCode::is_application_error(0));
    assert!(!ApplicationErrorCode::is_application_error(
        ApplicationErrorCode::FIRST - 1
    ));
    assert!(ApplicationErrorCode::is_application_error(
        ApplicationErrorCode::FIRST
    ));
    assert!(ApplicationErrorCode::is_application_error(
        ApplicationErrorCode::LAST
    ));
    assert!(!ApplicationErrorCode::is_application_error(
        ApplicationErrorCode::LAST + 1
    ));
}

#[test]
fn test_error_from_http3_code() {
    // プロトコルエラー
    let err = Error::from_http3_code(0x3994bd84);
    assert_eq!(err, Error::Protocol(ErrorCode::BufferedStreamRejected));

    // アプリケーションエラー
    let err = Error::from_http3_code(ApplicationErrorCode::FIRST);
    assert!(matches!(err, Error::Application { code: 0, .. }));

    // 不明なエラー (範囲外リセット)
    let err = Error::from_http3_code(0x12345678);
    assert_eq!(err, Error::Unknown(0x12345678));
    assert!(err.is_out_of_range_reset());
}

#[test]
fn test_is_out_of_range_reset() {
    // プロトコルエラーは範囲外リセットではない
    assert!(!Error::protocol(ErrorCode::SessionGone).is_out_of_range_reset());
    // アプリケーションエラーは範囲外リセットではない
    assert!(!Error::application(0, "").is_out_of_range_reset());
    // Unknown は範囲外リセット
    assert!(Error::Unknown(0x99).is_out_of_range_reset());
}
