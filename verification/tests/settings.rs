use shiguredo_http3::frame::SettingsPayload;
use shiguredo_http3::limits::Limits;
use shiguredo_http3::settings::{is_http2_only_id, Setting, SettingError, Settings};
use shiguredo_http3::varint::{VarInt, VarIntError};
use shiguredo_http3::webtransport;

fn v(n: u64) -> VarInt {
    VarInt::new(n).unwrap()
}

#[test]
fn test_is_http2_only_id() {
    assert!(is_http2_only_id(0x02));
    assert!(is_http2_only_id(0x03));
    assert!(is_http2_only_id(0x04));
    assert!(is_http2_only_id(0x05));
    assert!(!is_http2_only_id(0x00));
    assert!(!is_http2_only_id(0x01));
    assert!(!is_http2_only_id(0x06));
}

#[test]
fn test_setting_from_wire_known_ids() {
    assert_eq!(
        Setting::from_wire(v(0x01), v(4096)).unwrap(),
        Setting::QpackMaxTableCapacity(v(4096))
    );
    assert_eq!(
        Setting::from_wire(v(0x06), v(16384)).unwrap(),
        Setting::MaxFieldSectionSize(v(16384))
    );
    assert_eq!(
        Setting::from_wire(v(0x07), v(50)).unwrap(),
        Setting::QpackBlockedStreams(v(50))
    );
    assert_eq!(
        Setting::from_wire(v(0x08), v(1)).unwrap(),
        Setting::EnableConnectProtocol(true)
    );
    assert_eq!(
        Setting::from_wire(v(0x33), v(0)).unwrap(),
        Setting::H3Datagram(false)
    );
}

#[test]
fn test_setting_from_wire_http2_only_rejected() {
    for id in [0x02u64, 0x03, 0x04, 0x05] {
        let err = Setting::from_wire(v(id), v(0)).unwrap_err();
        assert_eq!(err, SettingError::Http2OnlyId { id: v(id) });
    }
}

#[test]
fn test_setting_from_wire_reserved_id_rejected() {
    let err = Setting::from_wire(v(0x00), v(0)).unwrap_err();
    assert_eq!(err, SettingError::ReservedId { id: v(0x00) });
}

#[test]
fn test_setting_from_wire_invalid_boolean() {
    let err = Setting::from_wire(v(0x08), v(2)).unwrap_err();
    assert_eq!(
        err,
        SettingError::InvalidBooleanValue {
            id: v(0x08),
            value: v(2)
        }
    );
    let err = Setting::from_wire(v(0x33), v(u64::from(u8::MAX))).unwrap_err();
    assert_eq!(
        err,
        SettingError::InvalidBooleanValue {
            id: v(0x33),
            value: v(u64::from(u8::MAX))
        }
    );
}

#[test]
fn test_setting_from_wire_unknown_id() {
    let s = Setting::from_wire(v(0x99), v(42)).unwrap();
    let Setting::Unknown(u) = s else {
        panic!("expected Unknown");
    };
    assert_eq!(u.id(), v(0x99));
    assert_eq!(u.value(), v(42));
}

#[test]
fn test_setting_from_wire_wt_ids() {
    assert_eq!(
        Setting::from_wire(v(0x2c7cf000), v(1)).unwrap(),
        Setting::WtEnabled(v(1))
    );
    assert_eq!(
        Setting::from_wire(v(0x14e9cd29), v(1)).unwrap(),
        Setting::WtMaxSessionsDraft14(v(1))
    );
    assert_eq!(
        Setting::from_wire(v(0x2b603742), v(1)).unwrap(),
        Setting::EnableWebTransportDraft02(true)
    );
    assert_eq!(
        Setting::from_wire(v(0xc671706a), v(3)).unwrap(),
        Setting::WebTransportMaxSessionsDraft07(v(3))
    );
    assert_eq!(
        Setting::from_wire(v(0x2b61), v(1024)).unwrap(),
        Setting::WtInitialMaxData(v(1024))
    );
    assert_eq!(
        Setting::from_wire(v(0x2b64), v(100)).unwrap(),
        Setting::WtInitialMaxStreamsUni(v(100))
    );
    assert_eq!(
        Setting::from_wire(v(0x2b65), v(50)).unwrap(),
        Setting::WtInitialMaxStreamsBidi(v(50))
    );
}

#[test]
fn test_setting_as_wire_roundtrip() {
    let cases = [
        Setting::QpackMaxTableCapacity(v(4096)),
        Setting::MaxFieldSectionSize(v(16384)),
        Setting::QpackBlockedStreams(v(100)),
        Setting::EnableConnectProtocol(true),
        Setting::EnableConnectProtocol(false),
        Setting::H3Datagram(true),
        Setting::H3Datagram(false),
        Setting::WtEnabled(v(1)),
        Setting::WtMaxSessionsDraft14(v(7)),
        Setting::EnableWebTransportDraft02(true),
        Setting::WebTransportMaxSessionsDraft07(v(3)),
        Setting::WtInitialMaxData(v(1024)),
        Setting::WtInitialMaxStreamsUni(v(100)),
        Setting::WtInitialMaxStreamsBidi(v(50)),
        Setting::from_wire(v(0xdead_beef), v(42)).unwrap(),
    ];
    for setting in cases {
        let (id, value) = setting.as_wire();
        let restored = Setting::from_wire(id, value).unwrap();
        assert_eq!(restored, setting);
    }
}

#[test]
fn test_setting_id() {
    assert_eq!(Setting::QpackMaxTableCapacity(v(4096)).id(), v(0x01));
    assert_eq!(Setting::H3Datagram(true).id(), v(0x33));
    let unknown = Setting::from_wire(v(0xfeed), v(0)).unwrap();
    assert_eq!(unknown.id(), v(0xfeed));
}

#[test]
fn test_setting_error_display() {
    let err = SettingError::Http2OnlyId { id: v(0x02) };
    let s = err.to_string();
    assert!(s.contains("0x2"));

    let err = SettingError::ReservedId { id: v(0x00) };
    let s = err.to_string();
    assert!(s.contains("0x0"));

    let err = SettingError::InvalidBooleanValue {
        id: v(0x08),
        value: v(2),
    };
    let s = err.to_string();
    assert!(s.contains("0x8"));
    assert!(s.contains('2'));
}

#[test]
fn settings_test_settings_default() {
    let settings = Settings::default();
    assert!(settings.is_empty());

    // The WebTransport settings.
    {
        let settings = webtransport::Settings::default();
        assert_eq!(settings.wt_enabled, VarInt::ZERO());
        assert!(!settings.is_enabled());
        assert!(!settings.declares_flow_control());
    }
}

#[test]
fn settings_test_settings_builder() {
    let settings = Settings::new()
        .qpack_max_table_capacity(v(4096))
        .max_field_section_size(v(16384))
        .qpack_blocked_streams(v(100))
        .enable_connect_protocol(true)
        .h3_datagram(false);

    assert_eq!(settings.qpack_max_table_capacity, Some(v(4096)));
    assert_eq!(settings.max_field_section_size, Some(v(16384)));
    assert_eq!(settings.qpack_blocked_streams, Some(v(100)));
    assert_eq!(settings.enable_connect_protocol, Some(true));
    assert_eq!(settings.h3_datagram, Some(false));
    assert_eq!(settings.len(), 5);

    // The WebTransport settings.
    {
        let settings = webtransport::Settings::new()
            .wt_enabled(v(1))
            .wt_initial_max_streams_uni(v(100))
            .wt_initial_max_streams_bidi(v(50))
            .wt_initial_max_data(v(1024 * 1024));

        assert_eq!(settings.wt_enabled, v(1));
        assert_eq!(settings.wt_initial_max_streams_uni, v(100));
        assert_eq!(settings.wt_initial_max_streams_bidi, v(50));
        assert_eq!(settings.wt_initial_max_data, v(1024 * 1024));
        assert!(settings.is_enabled());
        assert!(settings.declares_flow_control());
    }
}

#[test]
fn test_settings_from_limits() {
    let limits = Limits::new()
        .qpack_max_table_capacity(4096)
        .max_field_section_size(32768)
        .qpack_blocked_streams(50);

    let settings = Settings::from_limits(&limits).unwrap();
    assert_eq!(settings.qpack_max_table_capacity, Some(v(4096)));
    assert_eq!(settings.max_field_section_size, Some(v(32768)));
    assert_eq!(settings.qpack_blocked_streams, Some(v(50)));
}

#[test]
fn settings_test_settings_iter() {
    let settings = Settings::new()
        .qpack_max_table_capacity(v(4096))
        .max_field_section_size(v(16384));

    let entries: Vec<_> = settings.iter();
    assert_eq!(entries.len(), 2);
    assert!(entries.contains(&Setting::QpackMaxTableCapacity(v(4096))));
    assert!(entries.contains(&Setting::MaxFieldSectionSize(v(16384))));

    // The WebTransport settings.
    {
        let settings = webtransport::Settings::new()
            .wt_enabled(v(1))
            .wt_initial_max_data(v(4096));

        let entries: Vec<_> = settings.iter();
        assert_eq!(entries.len(), 2);
        assert!(entries.contains(&Setting::WtEnabled(v(1))));
        assert!(entries.contains(&Setting::WtInitialMaxData(v(4096))));
    }
}

#[test]
fn test_enable_webtransport() {
    let wt = webtransport::Settings::new()
        .wt_enabled(v(1))
        .enable_webtransport_draft02(true)
        .webtransport_max_sessions_draft07(v(1))
        .wt_initial_max_streams_bidi(v(100))
        .wt_initial_max_streams_uni(v(100))
        .wt_initial_max_data(v(1_048_576));

    let settings = Settings::new().enable_webtransport_server(wt);

    assert_eq!(settings.enable_connect_protocol, Some(true));
    assert_eq!(settings.h3_datagram, Some(true));
    assert!(settings.is_webtransport_enabled());

    let wt = settings.wt_settings.unwrap();
    assert_eq!(wt.wt_enabled, v(1));
    assert_eq!(wt.enable_webtransport_draft02, Some(true));
    assert_eq!(wt.webtransport_max_sessions_draft07, Some(v(1)));
    assert_eq!(wt.wt_initial_max_streams_bidi, v(100));
    assert_eq!(wt.wt_initial_max_streams_uni, v(100));
    assert_eq!(wt.wt_initial_max_data, v(1_048_576));
}

#[test]
fn test_is_webtransport_enabled() {
    let settings = Settings::new();
    assert!(!settings.is_webtransport_enabled());

    let wt = webtransport::Settings::new().wt_enabled(v(1));
    let settings = Settings::new().enable_webtransport_server(wt);
    assert!(settings.is_webtransport_enabled());
}

#[test]
fn test_len_includes_wt_settings() {
    let wt = webtransport::Settings::new()
        .wt_enabled(v(1))
        .wt_initial_max_streams_bidi(v(100));

    let settings = Settings::new()
        .qpack_max_table_capacity(v(4096))
        .enable_webtransport_server(wt);

    // H3: qpack_max_table_capacity, enable_connect_protocol, h3_datagram = 3
    // WT: wt_enabled, wt_initial_max_streams_bidi = 2
    assert_eq!(settings.len(), 5);
}

#[test]
fn test_add_duplicate_rejected_at_payload() {
    // 重複 ID 検出は SettingsPayload::add の責務 (構築時)
    let mut payload = SettingsPayload::new();
    payload
        .add(Setting::QpackMaxTableCapacity(v(4096)))
        .unwrap();
    let err = payload
        .add(Setting::QpackMaxTableCapacity(v(8192)))
        .unwrap_err();
    assert_eq!(err, SettingError::DuplicateId { id: v(0x01) });
}

#[test]
fn test_from_payload_ignores_unknown() {
    // Setting::Unknown は from_wire 経由でしか作れないため、wire からの構築をシミュレート
    let unknown = Setting::from_wire(v(0xdead), v(1)).unwrap();
    let mut payload = SettingsPayload::new();
    payload.add(unknown).unwrap();
    payload.add(Setting::H3Datagram(true)).unwrap();
    let settings = Settings::from_payload(&payload);
    assert_eq!(settings.h3_datagram, Some(true));
    assert!(settings.qpack_max_table_capacity.is_none());
}

#[test]
fn test_setting_error_duplicate_id_display() {
    let err = SettingError::DuplicateId { id: v(0x01) };
    let s = err.to_string();
    assert!(s.contains("duplicate"));
    assert!(s.contains("0x1"));
}

#[test]
fn test_from_limits_out_of_range_qpack_max_table_capacity() {
    let mut limits = Limits::new();
    limits.qpack_max_table_capacity = 1u64 << 62;
    let err = Settings::from_limits(&limits).unwrap_err();
    assert!(matches!(err, VarIntError::OutOfRange { .. }));
}

#[test]
fn test_from_limits_out_of_range_max_field_section_size() {
    let mut limits = Limits::new();
    limits.max_field_section_size = 1u64 << 62;
    let err = Settings::from_limits(&limits).unwrap_err();
    assert!(matches!(err, VarIntError::OutOfRange { .. }));
}

#[test]
fn test_from_limits_out_of_range_qpack_blocked_streams() {
    let mut limits = Limits::new();
    limits.qpack_blocked_streams = 1u64 << 62;
    let err = Settings::from_limits(&limits).unwrap_err();
    assert!(matches!(err, VarIntError::OutOfRange { .. }));
}
