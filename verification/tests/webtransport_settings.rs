use shiguredo_http3::settings::Setting;
use shiguredo_http3::varint::VarInt;
use shiguredo_http3::webtransport::{DraftVersion, Settings};

fn v(n: u64) -> VarInt {
    VarInt::new(n).unwrap()
}



#[test]
fn test_settings_draft02_07() {
    let settings = Settings::new()
        .enable_webtransport_draft02(true)
        .webtransport_max_sessions_draft07(v(5));

    assert!(settings.is_enabled());
    assert_eq!(settings.enable_webtransport_draft02, Some(true));
    assert_eq!(settings.webtransport_max_sessions_draft07, Some(v(5)));
}

#[test]
fn test_is_enabled_draft02() {
    let settings = Settings::new().enable_webtransport_draft02(true);
    assert!(settings.is_enabled());

    let settings = Settings::new().enable_webtransport_draft02(false);
    assert!(!settings.is_enabled());
}

#[test]
fn test_is_enabled_draft07() {
    let settings = Settings::new().webtransport_max_sessions_draft07(v(1));
    assert!(settings.is_enabled());

    let settings = Settings::new().webtransport_max_sessions_draft07(v(0));
    assert!(!settings.is_enabled());
}

#[test]
fn test_flow_control_enabled() {
    // wt_enabled のみではフロー制御無効 (draft-15: INITIAL_MAX_* が必要)
    let settings = Settings::new().wt_enabled(v(1));
    assert!(!settings.declares_flow_control());

    let settings = Settings::new().wt_enabled(v(2));
    assert!(!settings.declares_flow_control());

    // INITIAL_MAX_* が非ゼロならフロー制御有効
    let settings = Settings::new()
        .wt_enabled(v(1))
        .wt_initial_max_streams_uni(v(10));
    assert!(settings.declares_flow_control());

    let settings = Settings::new()
        .wt_enabled(v(1))
        .wt_initial_max_streams_bidi(v(5));
    assert!(settings.declares_flow_control());

    let settings = Settings::new()
        .wt_enabled(v(1))
        .wt_initial_max_data(v(1024));
    assert!(settings.declares_flow_control());
}

#[test]
fn test_flow_control_enabled_with_peer() {
    let local = Settings::new().wt_initial_max_streams_uni(v(10));
    let peer = Settings::new().wt_enabled(v(1));
    assert!(!local.flow_control_enabled_with_peer(&peer));

    let peer = Settings::new().wt_initial_max_data(v(1));
    assert!(local.flow_control_enabled_with_peer(&peer));
}


#[test]
fn test_settings_iter_with_draft02_07() {
    let settings = Settings::new()
        .wt_enabled(v(1))
        .enable_webtransport_draft02(true)
        .webtransport_max_sessions_draft07(v(3));

    let entries: Vec<_> = settings.iter();
    assert_eq!(entries.len(), 3);
    assert!(entries.contains(&Setting::WtEnabled(v(1))));
    assert!(entries.contains(&Setting::EnableWebTransportDraft02(true)));
    assert!(entries.contains(&Setting::WebTransportMaxSessionsDraft07(v(3))));
}

#[test]
fn test_from_payload_wt_setting() {
    // WebTransport variant のみ反映され、非 WT / Unknown は無視されることを検証
    let unknown = Setting::from_wire(v(0xdead), v(1)).expect("test must succeed");
    let entries = [
        Setting::WtEnabled(v(1)),
        Setting::WtInitialMaxStreamsUni(v(100)),
        Setting::WtInitialMaxStreamsBidi(v(50)),
        Setting::WtInitialMaxData(v(1024)),
        Setting::EnableWebTransportDraft02(true),
        Setting::WebTransportMaxSessionsDraft07(v(3)),
        Setting::WtMaxSessionsDraft14(v(2)),
        Setting::H3Datagram(true), // 非 WT、無視される
        unknown,                   // Unknown、無視される
    ];
    let wt = Settings::from_payload(&entries).expect("test must succeed");
    assert_eq!(wt.wt_enabled, v(1));
    assert_eq!(wt.wt_initial_max_streams_uni, v(100));
    assert_eq!(wt.wt_initial_max_streams_bidi, v(50));
    assert_eq!(wt.wt_initial_max_data, v(1024));
    assert_eq!(wt.enable_webtransport_draft02, Some(true));
    assert_eq!(wt.webtransport_max_sessions_draft07, Some(v(3)));
    assert_eq!(wt.wt_max_sessions_draft14, Some(v(2)));
}

#[test]
fn test_from_payload_returns_none_without_wt_entries() {
    // WT variant が 1 つも含まれない場合は None
    let entries = [Setting::H3Datagram(true)];
    assert!(Settings::from_payload(&entries).is_none());
}

#[test]
fn test_detect_draft_pattern_draft15() {
    let settings = Settings::new().wt_enabled(v(1));
    assert_eq!(settings.detect_draft_pattern(), Some(DraftVersion::Draft15));
}

#[test]
fn test_detect_draft_pattern_draft14() {
    let settings = Settings::new().wt_max_sessions_draft14(v(1));
    assert_eq!(settings.detect_draft_pattern(), Some(DraftVersion::Draft14));
}

#[test]
fn test_detect_draft_pattern_draft07() {
    let settings = Settings::new().webtransport_max_sessions_draft07(v(1));
    assert_eq!(settings.detect_draft_pattern(), Some(DraftVersion::Draft07));
}

#[test]
fn test_detect_draft_pattern_draft02() {
    let settings = Settings::new().enable_webtransport_draft02(true);
    assert_eq!(settings.detect_draft_pattern(), Some(DraftVersion::Draft02));
}

#[test]
fn test_detect_draft_pattern_none() {
    let settings = Settings::new();
    assert_eq!(settings.detect_draft_pattern(), None);

    // draft-02 が false の場合も None
    let settings = Settings::new().enable_webtransport_draft02(false);
    assert_eq!(settings.detect_draft_pattern(), None);

    // draft-14 が 0 の場合も None
    let settings = Settings::new().wt_max_sessions_draft14(v(0));
    assert_eq!(settings.detect_draft_pattern(), None);
}

#[test]
fn test_detect_draft_pattern_priority() {
    // draft-07 と draft-14 を両方送る場合は SETTINGS ネゴシエーションとしては
    // draft-07 を優先する (Safari が draft-14 固有の応答 SETTINGS を拒否するため)
    let settings = Settings::new()
        .webtransport_max_sessions_draft07(v(1))
        .wt_max_sessions_draft14(v(1));
    assert_eq!(settings.detect_draft_pattern(), Some(DraftVersion::Draft07));

    // draft-15 が最優先
    let settings = Settings::new()
        .wt_enabled(v(1))
        .wt_max_sessions_draft14(v(1))
        .webtransport_max_sessions_draft07(v(1));
    assert_eq!(settings.detect_draft_pattern(), Some(DraftVersion::Draft15));
}

#[test]
fn test_detect_draft_pattern_safari_observed() {
    // Safari 26.4 の実測パターン:
    // - draft-07 の SETTINGS_WEBTRANSPORT_MAX_SESSIONS
    // - draft-15 系 ID の SETTINGS_WT_INITIAL_MAX_*
    // draft 自体は draft-07 として扱う。
    let settings = Settings::new()
        .webtransport_max_sessions_draft07(v(1))
        .wt_initial_max_data(v(8_388_608))
        .wt_initial_max_streams_uni(v(100))
        .wt_initial_max_streams_bidi(v(100));
    assert_eq!(settings.detect_draft_pattern(), Some(DraftVersion::Draft07));
}

#[test]
fn test_detect_draft_pattern_safari_legacy_combo() {
    // Safari が draft-07 と draft-14 の ID を併送するケース
    // (実測: Safari 26.4 は 0xc671706a と 0x14e9cd29 を同時送信)。
    // SETTINGS ネゴシエーションとしては draft-07 を優先する。
    // draft-14 固有のカプセルベースフロー制御はセッション確立後に別途扱う。
    let settings = Settings::new()
        .webtransport_max_sessions_draft07(v(1))
        .wt_max_sessions_draft14(v(1))
        .wt_initial_max_data(v(8_388_608))
        .wt_initial_max_streams_uni(v(100))
        .wt_initial_max_streams_bidi(v(100));
    assert_eq!(settings.detect_draft_pattern(), Some(DraftVersion::Draft07));
}

#[test]
fn test_declares_flow_control_draft14_max_sessions() {
    // draft-14: WT_MAX_SESSIONS > 1 でフロー制御宣言
    let settings = Settings::new().wt_max_sessions_draft14(v(2));
    assert!(settings.declares_flow_control());

    // WT_MAX_SESSIONS = 1 ではフロー制御宣言にならない
    let settings = Settings::new().wt_max_sessions_draft14(v(1));
    assert!(!settings.declares_flow_control());
}

#[test]
fn test_requires_initial_capsule_flow_control_compat_safari_observed() {
    let settings = Settings::new()
        .webtransport_max_sessions_draft07(v(1))
        .wt_initial_max_streams_uni(v(100))
        .wt_initial_max_streams_bidi(v(100))
        .wt_initial_max_data(v(8 * 1024 * 1024));
    assert!(settings.requires_initial_capsule_flow_control_compat());
}

#[test]
fn test_requires_initial_capsule_flow_control_compat_draft07_plain() {
    let settings = Settings::new().webtransport_max_sessions_draft07(v(1));
    assert!(!settings.requires_initial_capsule_flow_control_compat());
}

#[test]
fn test_is_enabled_draft14() {
    let settings = Settings::new().wt_max_sessions_draft14(v(1));
    assert!(settings.is_enabled());

    let settings = Settings::new().wt_max_sessions_draft14(v(0));
    assert!(!settings.is_enabled());
}
