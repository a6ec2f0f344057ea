//! HTTP/3 settings (RFC 9114 Section 7.2.4).
//!
//! [`Setting`] is one known SETTINGS parameter with its typed value;
//! [`Setting::from_wire`] checks a wire `(id, value)` pair into one and
//! [`Setting::as_wire`] turns it back. [`Settings`] collects the HTTP/3
//! parameters of one endpoint.

use vstd::prelude::*;
use crate::text::{decimal_chars, hex_chars, push_str, push_radix, push_hex, string_from_chars};
use crate::varint::{VarInt, VarIntError, VARINT_MAX_VALUE};
use crate::limits::Limits;
use crate::frame::SettingsPayload;
use crate::webtransport;
use crate::webtransport::connect::DraftVersion;
use crate::webtransport::settings::{
    opt_seq, push_opt, wt_fold, wt_entries, draft_pattern_spec,
};

verus! {

/// SETTINGS_QPACK_MAX_TABLE_CAPACITY (RFC 9204 Section 5).
pub const ID_QPACK_MAX_TABLE_CAPACITY: u64 = 0x01;
/// SETTINGS_MAX_FIELD_SECTION_SIZE (RFC 9114 Section 7.2.4.2).
pub const ID_MAX_FIELD_SECTION_SIZE: u64 = 0x06;
/// SETTINGS_QPACK_BLOCKED_STREAMS (RFC 9204 Section 5).
pub const ID_QPACK_BLOCKED_STREAMS: u64 = 0x07;
/// SETTINGS_ENABLE_CONNECT_PROTOCOL (RFC 8441 Section 3, RFC 9220 Section 3).
pub const ID_ENABLE_CONNECT_PROTOCOL: u64 = 0x08;
/// SETTINGS_H3_DATAGRAM (RFC 9297 Section 2.1.1).
pub const ID_H3_DATAGRAM: u64 = 0x33;
/// SETTINGS_WT_INITIAL_MAX_DATA (WebTransport drafts 14 and 15).
pub const ID_WT_INITIAL_MAX_DATA: u64 = 0x2b61;
/// SETTINGS_WT_INITIAL_MAX_STREAMS_UNI (WebTransport drafts 14 and 15).
pub const ID_WT_INITIAL_MAX_STREAMS_UNI: u64 = 0x2b64;
/// SETTINGS_WT_INITIAL_MAX_STREAMS_BIDI (WebTransport drafts 14 and 15).
pub const ID_WT_INITIAL_MAX_STREAMS_BIDI: u64 = 0x2b65;
/// SETTINGS_ENABLE_WEBTRANSPORT (WebTransport draft 02).
pub const ID_ENABLE_WEBTRANSPORT_DRAFT02: u64 = 0x2b603742;
/// SETTINGS_WT_MAX_SESSIONS (WebTransport draft 14).
pub const ID_WT_MAX_SESSIONS_DRAFT14: u64 = 0x14e9cd29;
/// SETTINGS_WT_ENABLED (WebTransport draft 15).
pub const ID_WT_ENABLED: u64 = 0x2c7cf000;
/// SETTINGS_WEBTRANSPORT_MAX_SESSIONS (WebTransport draft 07).
pub const ID_WEBTRANSPORT_MAX_SESSIONS_DRAFT07: u64 = 0xc671706a;

/// An identifier HTTP/2 defined with no HTTP/3 counterpart, 0x02 to 0x05
/// (RFC 9114 Sections 7.2.4.1 and 11.2.2).
pub open spec fn is_http2_only_id_spec(id: u64) -> bool {
    0x02 <= id <= 0x05
}

/// Whether `id` is reserved as an HTTP/2-only setting (0x02 to 0x05).
pub fn is_http2_only_id(id: u64) -> (r: bool)
    ensures
        r == is_http2_only_id_spec(id),
{
    0x02 <= id && id <= 0x05
}

/// An identifier this crate knows.
pub open spec fn is_known_id(id: u64) -> bool {
    id == ID_QPACK_MAX_TABLE_CAPACITY || id == ID_MAX_FIELD_SECTION_SIZE || id
        == ID_QPACK_BLOCKED_STREAMS || id == ID_ENABLE_CONNECT_PROTOCOL || id == ID_H3_DATAGRAM
        || id == ID_WT_ENABLED || id == ID_WT_MAX_SESSIONS_DRAFT14 || id
        == ID_ENABLE_WEBTRANSPORT_DRAFT02 || id == ID_WEBTRANSPORT_MAX_SESSIONS_DRAFT07 || id
        == ID_WT_INITIAL_MAX_DATA || id == ID_WT_INITIAL_MAX_STREAMS_UNI || id
        == ID_WT_INITIAL_MAX_STREAMS_BIDI
}

/// A parameter this crate does not understand, kept by identifier and value.
///
/// Its identifier is neither known, nor reserved, nor HTTP/2-only.
#[derive(Debug, Clone, Copy, PartialEq, Eq, Structural)]
pub struct UnknownSetting {
    id: VarInt,
    value: VarInt,
}

impl UnknownSetting {
    #[verifier::type_invariant]
    spec fn inv(self) -> bool {
        !is_known_id(self.id@) && !is_http2_only_id_spec(self.id@) && self.id@ != 0
    }

    /// The record of an unknown parameter, as a spec value.
    pub closed spec fn spec_new(id: VarInt, value: VarInt) -> UnknownSetting {
        UnknownSetting { id, value }
    }

    /// A record built from an identifier and value holds them.
    pub proof fn lemma_spec_new(id: VarInt, value: VarInt)
        ensures
            Self::spec_new(id, value).id_spec() == id,
            Self::spec_new(id, value).value_spec() == value,
    {
    }

    /// The identifier, as a spec value.
    pub closed spec fn id_spec(self) -> VarInt {
        self.id
    }

    /// The value, as a spec value.
    pub closed spec fn value_spec(self) -> VarInt {
        self.value
    }

    /// Builds the record of an unknown parameter.
    pub(crate) fn new(id: VarInt, value: VarInt) -> (r: UnknownSetting)
        requires
            !is_known_id(id@),
            !is_http2_only_id_spec(id@),
            id@ != 0,
        ensures
            r == Self::spec_new(id, value),
            r.id_spec() == id,
            r.value_spec() == value,
    {
        UnknownSetting { id, value }
    }

    /// The identifier.
    pub fn id(&self) -> (r: VarInt)
        ensures
            r == self.id_spec(),
            !is_known_id(r@) && !is_http2_only_id_spec(r@) && r@ != 0,
    {
        proof {
            use_type_invariant(self);
        }
        self.id
    }

    /// The value.
    pub fn value(&self) -> (r: VarInt)
        ensures
            r == self.value_spec(),
    {
        self.value
    }
}

/// A SETTINGS parameter with its typed value (RFC 9114 Section 7.2.4).
#[non_exhaustive]
#[derive(Debug, Clone, Copy, PartialEq, Eq, Structural)]
pub enum Setting {
    /// QPACK maximum table capacity (0x01).
    QpackMaxTableCapacity(VarInt),
    /// Maximum field section size (0x06).
    MaxFieldSectionSize(VarInt),
    /// QPACK blocked streams (0x07).
    QpackBlockedStreams(VarInt),
    /// Extended CONNECT enabled (0x08).
    EnableConnectProtocol(bool),
    /// HTTP Datagrams enabled (0x33).
    H3Datagram(bool),
    /// SETTINGS_WT_ENABLED (0x2c7cf000).
    WtEnabled(VarInt),
    /// SETTINGS_WT_MAX_SESSIONS of draft 14 (0x14e9cd29).
    WtMaxSessionsDraft14(VarInt),
    /// SETTINGS_ENABLE_WEBTRANSPORT of draft 02 (0x2b603742).
    EnableWebTransportDraft02(bool),
    /// SETTINGS_WEBTRANSPORT_MAX_SESSIONS of draft 07 (0xc671706a).
    WebTransportMaxSessionsDraft07(VarInt),
    /// SETTINGS_WT_INITIAL_MAX_DATA (0x2b61).
    WtInitialMaxData(VarInt),
    /// SETTINGS_WT_INITIAL_MAX_STREAMS_UNI (0x2b64).
    WtInitialMaxStreamsUni(VarInt),
    /// SETTINGS_WT_INITIAL_MAX_STREAMS_BIDI (0x2b65).
    WtInitialMaxStreamsBidi(VarInt),
    /// A parameter this crate does not understand (RFC 9114 Section 7.2.4: ignored).
    Unknown(UnknownSetting),
}

/// Why a SETTINGS parameter or payload is refused (H3_SETTINGS_ERROR).
#[non_exhaustive]
#[derive(Debug, Clone, Copy, PartialEq, Eq, Structural)]
pub enum SettingError {
    /// An HTTP/2-only identifier (0x02 to 0x05).
    Http2OnlyId {
        /// The identifier received.
        id: VarInt,
    },
    /// The reserved identifier 0x00.
    ReservedId {
        /// The identifier received.
        id: VarInt,
    },
    /// A boolean parameter with a value other than 0 or 1.
    InvalidBooleanValue {
        /// The identifier.
        id: VarInt,
        /// The value received.
        value: VarInt,
    },
    /// The same identifier twice in one SETTINGS frame.
    DuplicateId {
        /// The repeated identifier.
        id: VarInt,
    },
}

/// The wire value of a boolean.
pub open spec fn bool_wire(b: bool) -> u64 {
    if b {
        1
    } else {
        0
    }
}

/// The wire identifier and value of a setting.
pub open spec fn setting_wire_spec(s: Setting) -> (u64, u64) {
    match s {
        Setting::QpackMaxTableCapacity(v) => (ID_QPACK_MAX_TABLE_CAPACITY, v@),
        Setting::MaxFieldSectionSize(v) => (ID_MAX_FIELD_SECTION_SIZE, v@),
        Setting::QpackBlockedStreams(v) => (ID_QPACK_BLOCKED_STREAMS, v@),
        Setting::EnableConnectProtocol(b) => (ID_ENABLE_CONNECT_PROTOCOL, bool_wire(b)),
        Setting::H3Datagram(b) => (ID_H3_DATAGRAM, bool_wire(b)),
        Setting::WtEnabled(v) => (ID_WT_ENABLED, v@),
        Setting::WtMaxSessionsDraft14(v) => (ID_WT_MAX_SESSIONS_DRAFT14, v@),
        Setting::EnableWebTransportDraft02(b) => (ID_ENABLE_WEBTRANSPORT_DRAFT02, bool_wire(b)),
        Setting::WebTransportMaxSessionsDraft07(v) => (ID_WEBTRANSPORT_MAX_SESSIONS_DRAFT07, v@),
        Setting::WtInitialMaxData(v) => (ID_WT_INITIAL_MAX_DATA, v@),
        Setting::WtInitialMaxStreamsUni(v) => (ID_WT_INITIAL_MAX_STREAMS_UNI, v@),
        Setting::WtInitialMaxStreamsBidi(v) => (ID_WT_INITIAL_MAX_STREAMS_BIDI, v@),
        Setting::Unknown(u) => (u.id_spec()@, u.value_spec()@),
    }
}

/// The boolean a wire value stands for, or the error for another value.
pub open spec fn check_bool_spec(id: VarInt, value: VarInt) -> Result<bool, SettingError> {
    if value@ == 0 {
        Ok(false)
    } else if value@ == 1 {
        Ok(true)
    } else {
        Err(SettingError::InvalidBooleanValue { id, value })
    }
}

/// What a wire `(id, value)` pair stands for.
pub open spec fn setting_from_wire_spec(id: VarInt, value: VarInt) -> Result<Setting, SettingError> {
    let raw = id@;
    if is_http2_only_id_spec(raw) {
        Err(SettingError::Http2OnlyId { id })
    } else if raw == 0 {
        Err(SettingError::ReservedId { id })
    } else if raw == ID_QPACK_MAX_TABLE_CAPACITY {
        Ok(Setting::QpackMaxTableCapacity(value))
    } else if raw == ID_MAX_FIELD_SECTION_SIZE {
        Ok(Setting::MaxFieldSectionSize(value))
    } else if raw == ID_QPACK_BLOCKED_STREAMS {
        Ok(Setting::QpackBlockedStreams(value))
    } else if raw == ID_ENABLE_CONNECT_PROTOCOL {
        match check_bool_spec(id, value) {
            Ok(b) => Ok(Setting::EnableConnectProtocol(b)),
            Err(e) => Err(e),
        }
    } else if raw == ID_H3_DATAGRAM {
        match check_bool_spec(id, value) {
            Ok(b) => Ok(Setting::H3Datagram(b)),
            Err(e) => Err(e),
        }
    } else if raw == ID_WT_ENABLED {
        Ok(Setting::WtEnabled(value))
    } else if raw == ID_WT_MAX_SESSIONS_DRAFT14 {
        Ok(Setting::WtMaxSessionsDraft14(value))
    } else if raw == ID_ENABLE_WEBTRANSPORT_DRAFT02 {
        match check_bool_spec(id, value) {
            Ok(b) => Ok(Setting::EnableWebTransportDraft02(b)),
            Err(e) => Err(e),
        }
    } else if raw == ID_WEBTRANSPORT_MAX_SESSIONS_DRAFT07 {
        Ok(Setting::WebTransportMaxSessionsDraft07(value))
    } else if raw == ID_WT_INITIAL_MAX_DATA {
        Ok(Setting::WtInitialMaxData(value))
    } else if raw == ID_WT_INITIAL_MAX_STREAMS_UNI {
        Ok(Setting::WtInitialMaxStreamsUni(value))
    } else if raw == ID_WT_INITIAL_MAX_STREAMS_BIDI {
        Ok(Setting::WtInitialMaxStreamsBidi(value))
    } else {
        Ok(Setting::Unknown(UnknownSetting::spec_new(id, value)))
    }
}

fn check_bool(id: VarInt, value: VarInt) -> (r: Result<bool, SettingError>)
    ensures
        r == check_bool_spec(id, value),
{
    let v = value.get();
    if v == 0 {
        Ok(false)
    } else if v == 1 {
        Ok(true)
    } else {
        Err(SettingError::InvalidBooleanValue { id, value })
    }
}

impl Setting {
    /// Checks a wire `(id, value)` pair into a setting (RFC 9114 Section 7.2.4).
    ///
    /// HTTP/2-only and reserved identifiers and out-of-range booleans are
    /// refused; unknown identifiers are kept as [`Setting::Unknown`].
    pub fn from_wire(id: VarInt, value: VarInt) -> (r: Result<Setting, SettingError>)
        ensures
            r == setting_from_wire_spec(id, value),
            r matches Ok(s) ==> setting_wire_spec(s) == (id@, value@),
    {
        let raw = id.get();
        if is_http2_only_id(raw) {
            return Err(SettingError::Http2OnlyId { id });
        }
        if raw == 0 {
            return Err(SettingError::ReservedId { id });
        }
        if raw == ID_QPACK_MAX_TABLE_CAPACITY {
            Ok(Setting::QpackMaxTableCapacity(value))
        } else if raw == ID_MAX_FIELD_SECTION_SIZE {
            Ok(Setting::MaxFieldSectionSize(value))
        } else if raw == ID_QPACK_BLOCKED_STREAMS {
            Ok(Setting::QpackBlockedStreams(value))
        } else if raw == ID_ENABLE_CONNECT_PROTOCOL {
            match check_bool(id, value) {
                Ok(b) => Ok(Setting::EnableConnectProtocol(b)),
                Err(e) => Err(e),
            }
        } else if raw == ID_H3_DATAGRAM {
            match check_bool(id, value) {
                Ok(b) => Ok(Setting::H3Datagram(b)),
                Err(e) => Err(e),
            }
        } else if raw == ID_WT_ENABLED {
            Ok(Setting::WtEnabled(value))
        } else if raw == ID_WT_MAX_SESSIONS_DRAFT14 {
            Ok(Setting::WtMaxSessionsDraft14(value))
        } else if raw == ID_ENABLE_WEBTRANSPORT_DRAFT02 {
            match check_bool(id, value) {
                Ok(b) => Ok(Setting::EnableWebTransportDraft02(b)),
                Err(e) => Err(e),
            }
        } else if raw == ID_WEBTRANSPORT_MAX_SESSIONS_DRAFT07 {
            Ok(Setting::WebTransportMaxSessionsDraft07(value))
        } else if raw == ID_WT_INITIAL_MAX_DATA {
            Ok(Setting::WtInitialMaxData(value))
        } else if raw == ID_WT_INITIAL_MAX_STREAMS_UNI {
            Ok(Setting::WtInitialMaxStreamsUni(value))
        } else if raw == ID_WT_INITIAL_MAX_STREAMS_BIDI {
            Ok(Setting::WtInitialMaxStreamsBidi(value))
        } else {
            Ok(Setting::Unknown(UnknownSetting::new(id, value)))
        }
    }

    /// The wire `(id, value)` pair of this setting; reading it back with
    /// [`Setting::from_wire`] gives this setting again.
    pub fn as_wire(self) -> (r: (VarInt, VarInt))
        ensures
            (r.0@, r.1@) == setting_wire_spec(self),
            setting_from_wire_spec(r.0, r.1) == Ok::<Setting, SettingError>(self),
    {
        match self {
            Setting::QpackMaxTableCapacity(v) => (VarInt::from_static(ID_QPACK_MAX_TABLE_CAPACITY), v),
            Setting::MaxFieldSectionSize(v) => (VarInt::from_static(ID_MAX_FIELD_SECTION_SIZE), v),
            Setting::QpackBlockedStreams(v) => (VarInt::from_static(ID_QPACK_BLOCKED_STREAMS), v),
            Setting::EnableConnectProtocol(b) => (
                VarInt::from_static(ID_ENABLE_CONNECT_PROTOCOL),
                bool_varint(b),
            ),
            Setting::H3Datagram(b) => (VarInt::from_static(ID_H3_DATAGRAM), bool_varint(b)),
            Setting::WtEnabled(v) => (VarInt::from_static(ID_WT_ENABLED), v),
            Setting::WtMaxSessionsDraft14(v) => (VarInt::from_static(ID_WT_MAX_SESSIONS_DRAFT14), v),
            Setting::EnableWebTransportDraft02(b) => (
                VarInt::from_static(ID_ENABLE_WEBTRANSPORT_DRAFT02),
                bool_varint(b),
            ),
            Setting::WebTransportMaxSessionsDraft07(v) => (
                VarInt::from_static(ID_WEBTRANSPORT_MAX_SESSIONS_DRAFT07),
                v,
            ),
            Setting::WtInitialMaxData(v) => (VarInt::from_static(ID_WT_INITIAL_MAX_DATA), v),
            Setting::WtInitialMaxStreamsUni(v) => (
                VarInt::from_static(ID_WT_INITIAL_MAX_STREAMS_UNI),
                v,
            ),
            Setting::WtInitialMaxStreamsBidi(v) => (
                VarInt::from_static(ID_WT_INITIAL_MAX_STREAMS_BIDI),
                v,
            ),
            Setting::Unknown(u) => {
                let id = u.id();
                (id, u.value())
            },
        }
    }

    /// The identifier of this setting.
    pub fn id(self) -> (r: VarInt)
        ensures
            r@ == setting_wire_spec(self).0,
    {
        self.as_wire().0
    }
}

fn bool_varint(b: bool) -> (r: VarInt)
    ensures
        r@ == bool_wire(b),
{
    if b {
        VarInt::from_static(1)
    } else {
        VarInt::ZERO()
    }
}

/// Reading a wire pair and writing it back gives the same pair.
pub proof fn lemma_setting_wire_roundtrip(id: VarInt, value: VarInt)
    ensures
        setting_from_wire_spec(id, value) matches Ok(s) ==> setting_wire_spec(s) == (id@, value@),
{
}

/// The HTTP/3 parameters of one endpoint.
#[derive(Debug, Clone, Copy, PartialEq, Eq, Structural)]
pub struct Settings {
    /// SETTINGS_QPACK_MAX_TABLE_CAPACITY.
    pub qpack_max_table_capacity: Option<VarInt>,
    /// SETTINGS_MAX_FIELD_SECTION_SIZE.
    pub max_field_section_size: Option<VarInt>,
    /// SETTINGS_QPACK_BLOCKED_STREAMS.
    pub qpack_blocked_streams: Option<VarInt>,
    /// SETTINGS_ENABLE_CONNECT_PROTOCOL.
    pub enable_connect_protocol: Option<bool>,
    /// SETTINGS_H3_DATAGRAM.
    pub h3_datagram: Option<bool>,
    /// The WebTransport parameters.
    pub wt_settings: Option<webtransport::settings::Settings>,
}

/// All parameters absent.
pub open spec fn settings_empty() -> Settings {
    Settings {
        qpack_max_table_capacity: None,
        max_field_section_size: None,
        qpack_blocked_streams: None,
        enable_connect_protocol: None,
        h3_datagram: None,
        wt_settings: None,
    }
}

/// The HTTP/3 settings after reading one more parameter.
pub open spec fn h3_apply(s: Settings, p: Setting) -> Settings {
    match p {
        Setting::QpackMaxTableCapacity(v) => Settings { qpack_max_table_capacity: Some(v), ..s },
        Setting::MaxFieldSectionSize(v) => Settings { max_field_section_size: Some(v), ..s },
        Setting::QpackBlockedStreams(v) => Settings { qpack_blocked_streams: Some(v), ..s },
        Setting::EnableConnectProtocol(b) => Settings { enable_connect_protocol: Some(b), ..s },
        Setting::H3Datagram(b) => Settings { h3_datagram: Some(b), ..s },
        _ => s,
    }
}

/// The HTTP/3 settings read from `p` in order onto `s`.
pub open spec fn h3_fold(s: Settings, p: Seq<Setting>) -> Settings
    decreases p.len(),
{
    if p.len() == 0 {
        s
    } else {
        h3_apply(h3_fold(s, p.drop_last()), p.last())
    }
}

/// The HTTP/3 entries of `s` in SETTINGS order, leaving out absent ones.
pub open spec fn h3_entries(s: Settings) -> Seq<Setting> {
    opt_seq(
        match s.qpack_max_table_capacity {
            Some(v) => Some(Setting::QpackMaxTableCapacity(v)),
            None => None,
        },
    ) + opt_seq(
        match s.max_field_section_size {
            Some(v) => Some(Setting::MaxFieldSectionSize(v)),
            None => None,
        },
    ) + opt_seq(
        match s.qpack_blocked_streams {
            Some(v) => Some(Setting::QpackBlockedStreams(v)),
            None => None,
        },
    ) + opt_seq(
        match s.enable_connect_protocol {
            Some(b) => Some(Setting::EnableConnectProtocol(b)),
            None => None,
        },
    ) + opt_seq(
        match s.h3_datagram {
            Some(b) => Some(Setting::H3Datagram(b)),
            None => None,
        },
    )
}

/// The number of entries `s` sends, WebTransport ones included.
pub open spec fn settings_len(s: Settings) -> nat {
    h3_entries(s).len() + match s.wt_settings {
        Some(w) => wt_entries(w).len(),
        None => 0,
    }
}

/// A `u64` as a [`VarInt`], or the error when it is too large.
pub open spec fn varint_of(v: u64) -> Result<VarInt, VarIntError> {
    if v > VARINT_MAX_VALUE {
        Err(VarIntError::OutOfRange { value: v })
    } else {
        Ok(VarInt::spec_new(v))
    }
}

impl Settings {
    /// All parameters absent.
    pub fn new() -> (r: Settings)
        ensures
            r == settings_empty(),
    {
        Settings {
            qpack_max_table_capacity: None,
            max_field_section_size: None,
            qpack_blocked_streams: None,
            enable_connect_protocol: None,
            h3_datagram: None,
            wt_settings: None,
        }
    }

    /// The settings that announce `limits`; fails when a limit does not fit
    /// in a variable-length integer.
    pub fn from_limits(limits: &Limits) -> (r: Result<Settings, VarIntError>)
        ensures
            match (
                varint_of(limits.qpack_max_table_capacity),
                varint_of(limits.max_field_section_size),
                varint_of(limits.qpack_blocked_streams),
            ) {
                (Ok(a), Ok(b), Ok(c)) => r == Ok::<Settings, VarIntError>(
                    Settings {
                        qpack_max_table_capacity: Some(a),
                        max_field_section_size: Some(b),
                        qpack_blocked_streams: Some(c),
                        ..settings_empty()
                    },
                ),
                (Err(e), _, _) => r == Err::<Settings, VarIntError>(e),
                (Ok(_), Err(e), _) => r == Err::<Settings, VarIntError>(e),
                (Ok(_), Ok(_), Err(e)) => r == Err::<Settings, VarIntError>(e),
            },
    {
        let a = match VarInt::new(limits.qpack_max_table_capacity) {
            Ok(a) => a,
            Err(e) => {
                return Err(e);
            },
        };
        let b = match VarInt::new(limits.max_field_section_size) {
            Ok(b) => b,
            Err(e) => {
                return Err(e);
            },
        };
        let c = match VarInt::new(limits.qpack_blocked_streams) {
            Ok(c) => c,
            Err(e) => {
                return Err(e);
            },
        };
        Ok(
            Settings {
                qpack_max_table_capacity: Some(a),
                max_field_section_size: Some(b),
                qpack_blocked_streams: Some(c),
                enable_connect_protocol: None,
                h3_datagram: None,
                wt_settings: None,
            },
        )
    }

    /// These settings with the QPACK table capacity set.
    pub fn qpack_max_table_capacity(self, capacity: VarInt) -> (r: Settings)
        ensures
            r == (Settings { qpack_max_table_capacity: Some(capacity), ..self }),
    {
        Settings { qpack_max_table_capacity: Some(capacity), ..self }
    }

    /// These settings with the field section limit set.
    pub fn max_field_section_size(self, size: VarInt) -> (r: Settings)
        ensures
            r == (Settings { max_field_section_size: Some(size), ..self }),
    {
        Settings { max_field_section_size: Some(size), ..self }
    }

    /// These settings with the QPACK blocked stream count set.
    pub fn qpack_blocked_streams(self, streams: VarInt) -> (r: Settings)
        ensures
            r == (Settings { qpack_blocked_streams: Some(streams), ..self }),
    {
        Settings { qpack_blocked_streams: Some(streams), ..self }
    }

    /// These settings with extended CONNECT enabled or not.
    pub fn enable_connect_protocol(self, enable: bool) -> (r: Settings)
        ensures
            r == (Settings { enable_connect_protocol: Some(enable), ..self }),
    {
        Settings { enable_connect_protocol: Some(enable), ..self }
    }

    /// These settings with HTTP Datagrams enabled or not.
    pub fn h3_datagram(self, enable: bool) -> (r: Settings)
        ensures
            r == (Settings { h3_datagram: Some(enable), ..self }),
    {
        Settings { h3_datagram: Some(enable), ..self }
    }

    /// A server's settings with WebTransport: extended CONNECT and HTTP
    /// Datagrams enabled, and the WebTransport parameters `wt`.
    pub fn enable_webtransport_server(self, wt: webtransport::settings::Settings) -> (r: Settings)
        ensures
            r == (Settings {
                enable_connect_protocol: Some(true),
                h3_datagram: Some(true),
                wt_settings: Some(wt),
                ..self
            }),
    {
        Settings {
            enable_connect_protocol: Some(true),
            h3_datagram: Some(true),
            wt_settings: Some(wt),
            ..self
        }
    }

    /// A client's settings with WebTransport: HTTP Datagrams enabled and the
    /// WebTransport parameters `wt` (a client does not send
    /// SETTINGS_ENABLE_CONNECT_PROTOCOL).
    pub fn enable_webtransport_client(self, wt: webtransport::settings::Settings) -> (r: Settings)
        ensures
            r == (Settings { h3_datagram: Some(true), wt_settings: Some(wt), ..self }),
    {
        Settings { h3_datagram: Some(true), wt_settings: Some(wt), ..self }
    }

    /// Whether WebTransport of some draft is enabled.
    pub fn is_webtransport_enabled(&self) -> (r: bool)
        ensures
            r == (self.wt_settings matches Some(w) && draft_pattern_spec(w) is Some),
    {
        match &self.wt_settings {
            Some(w) => w.is_enabled(),
            None => false,
        }
    }

    /// The draft the WebTransport parameters announce.
    pub fn webtransport_draft_pattern(&self) -> (r: Option<DraftVersion>)
        ensures
            r == match self.wt_settings {
                Some(w) => draft_pattern_spec(w),
                None => None,
            },
    {
        match &self.wt_settings {
            Some(w) => w.detect_draft_pattern(),
            None => None,
        }
    }

    /// The settings of a SETTINGS payload: HTTP/3 parameters to their
    /// fields, WebTransport ones to `wt_settings`, unknown ones ignored.
    pub fn from_payload(payload: &SettingsPayload) -> (r: Settings)
        ensures
            r == (Settings {
                wt_settings: r.wt_settings,
                ..h3_fold(settings_empty(), payload@)
            }),
            (exists|i: int|
                0 <= i < payload@.len() && webtransport::settings::is_wt_setting(
                    #[trigger] payload@[i],
                )) ==> r.wt_settings == Some(
                wt_fold(webtransport::settings::Settings::new_spec(), payload@),
            ),
            (forall|i: int|
                0 <= i < payload@.len() ==> !webtransport::settings::is_wt_setting(
                    #[trigger] payload@[i],
                )) ==> r.wt_settings is None,
    {
        let list = payload.settings();
        let mut s = Settings::new();
        let mut i: usize = 0;
        while i < list.len()
            invariant
                i <= list@.len(),
                s == h3_fold(settings_empty(), list@.take(i as int)),
            decreases list.len() - i,
        {
            assert(list@.take(i + 1).drop_last() =~= list@.take(i as int));
            match list[i] {
                Setting::QpackMaxTableCapacity(v) => {
                    s.qpack_max_table_capacity = Some(v);
                },
                Setting::MaxFieldSectionSize(v) => {
                    s.max_field_section_size = Some(v);
                },
                Setting::QpackBlockedStreams(v) => {
                    s.qpack_blocked_streams = Some(v);
                },
                Setting::EnableConnectProtocol(b) => {
                    s.enable_connect_protocol = Some(b);
                },
                Setting::H3Datagram(b) => {
                    s.h3_datagram = Some(b);
                },
                _ => {},
            }
            i = i + 1;
        }
        assert(list@.take(list@.len() as int) =~= list@);
        proof {
            lemma_h3_fold_keeps_wt(settings_empty(), list@);
        }
        s.wt_settings = webtransport::settings::Settings::from_payload(list);
        s
    }

    /// The HTTP/3 entries these settings send, leaving out absent ones
    /// (WebTransport entries come from `wt_settings`).
    pub fn iter(&self) -> (r: Vec<Setting>)
        ensures
            r@ == h3_entries(*self),
    {
        let mut v: Vec<Setting> = Vec::new();
        push_opt(
            &mut v,
            match self.qpack_max_table_capacity {
                Some(x) => Some(Setting::QpackMaxTableCapacity(x)),
                None => None,
            },
        );
        assert(v@ =~= opt_seq(
            match self.qpack_max_table_capacity {
                Some(x) => Some(Setting::QpackMaxTableCapacity(x)),
                None => None,
            },
        ));
        push_opt(
            &mut v,
            match self.max_field_section_size {
                Some(x) => Some(Setting::MaxFieldSectionSize(x)),
                None => None,
            },
        );
        push_opt(
            &mut v,
            match self.qpack_blocked_streams {
                Some(x) => Some(Setting::QpackBlockedStreams(x)),
                None => None,
            },
        );
        push_opt(
            &mut v,
            match self.enable_connect_protocol {
                Some(b) => Some(Setting::EnableConnectProtocol(b)),
                None => None,
            },
        );
        push_opt(
            &mut v,
            match self.h3_datagram {
                Some(b) => Some(Setting::H3Datagram(b)),
                None => None,
            },
        );
        v
    }

    /// The number of entries these settings send, WebTransport ones included.
    pub fn len(&self) -> (r: usize)
        ensures
            r == settings_len(*self),
    {
        let h3 = self.iter();
        let wt = match &self.wt_settings {
            Some(w) => w.iter().len(),
            None => 0,
        };
        proof {
            lemma_entries_bounded(*self);
        }
        h3.len() + wt
    }

    /// Whether these settings send no entry.
    pub fn is_empty(&self) -> (r: bool)
        ensures
            r == (settings_len(*self) == 0),
    {
        self.len() == 0
    }
}

/// At most twelve entries.
pub(crate) proof fn lemma_entries_bounded(s: Settings)
    ensures
        h3_entries(s).len() <= 5,
        s.wt_settings matches Some(w) ==> wt_entries(w).len() <= 7,
{
}

/// Reading HTTP/3 parameters leaves `wt_settings` as it was.
proof fn lemma_h3_fold_keeps_wt(s: Settings, p: Seq<Setting>)
    ensures
        h3_fold(s, p).wt_settings == s.wt_settings,
    decreases p.len(),
{
    if p.len() > 0 {
        lemma_h3_fold_keeps_wt(s, p.drop_last());
    }
}

/// All the entries `s` sends: the HTTP/3 ones, then the WebTransport ones.
pub open spec fn settings_entries(s: Settings) -> Seq<Setting> {
    h3_entries(s) + match s.wt_settings {
        Some(w) => wt_entries(w),
        None => seq![],
    }
}

/// Reading two runs of HTTP/3 parameters is reading one after the other.
proof fn lemma_h3_fold_concat(s: Settings, a: Seq<Setting>, b: Seq<Setting>)
    ensures
        h3_fold(s, a + b) == h3_fold(h3_fold(s, a), b),
    decreases b.len(),
{
    if b.len() == 0 {
        assert(a + b =~= a);
    } else {
        assert((a + b).drop_last() =~= a + b.drop_last());
        assert((a + b).last() == b.last());
        lemma_h3_fold_concat(s, a, b.drop_last());
    }
}

/// Reading two runs of WebTransport parameters is reading one after the
/// other.
proof fn lemma_wt_fold_concat(w: webtransport::settings::Settings, a: Seq<Setting>, b: Seq<Setting>)
    ensures
        wt_fold(w, a + b) == wt_fold(wt_fold(w, a), b),
    decreases b.len(),
{
    if b.len() == 0 {
        assert(a + b =~= a);
    } else {
        assert((a + b).drop_last() =~= a + b.drop_last());
        assert((a + b).last() == b.last());
        lemma_wt_fold_concat(w, a, b.drop_last());
    }
}

/// The HTTP/3 settings after reading an optional entry.
pub open spec fn h3_apply_opt(s: Settings, o: Option<Setting>) -> Settings {
    match o {
        Some(p) => h3_apply(s, p),
        None => s,
    }
}

/// The WebTransport settings after reading an optional entry.
pub open spec fn wt_apply_opt(w: webtransport::settings::Settings, o: Option<Setting>) -> webtransport::settings::Settings {
    match o {
        Some(p) => webtransport::settings::wt_apply(w, p),
        None => w,
    }
}

/// Reading one more optional entry, for both readers.
proof fn lemma_fold_snoc(s: Settings, w: webtransport::settings::Settings, a: Seq<Setting>, o: Option<Setting>)
    ensures
        h3_fold(s, a + opt_seq(o)) == h3_apply_opt(h3_fold(s, a), o),
        wt_fold(w, a + opt_seq(o)) == wt_apply_opt(wt_fold(w, a), o),
{
    lemma_h3_fold_concat(s, a, opt_seq(o));
    lemma_wt_fold_concat(w, a, opt_seq(o));
    let t = h3_fold(s, a);
    let u = wt_fold(w, a);
    assert(h3_fold(t, Seq::<Setting>::empty()) == t);
    assert(wt_fold(u, Seq::<Setting>::empty()) == u);
    match o {
        Some(p) => {
            assert(opt_seq(o).drop_last() =~= Seq::<Setting>::empty());
            assert(opt_seq(o).last() == p);
        },
        None => {
            assert(a + opt_seq(o) =~= a);
        },
    }
}

/// The optional entries of the HTTP/3 parameters.
pub open spec fn h3_opts(s: Settings) -> Seq<Option<Setting>> {
    seq![
        match s.qpack_max_table_capacity {
            Some(v) => Some(Setting::QpackMaxTableCapacity(v)),
            None => None,
        },
        match s.max_field_section_size {
            Some(v) => Some(Setting::MaxFieldSectionSize(v)),
            None => None,
        },
        match s.qpack_blocked_streams {
            Some(v) => Some(Setting::QpackBlockedStreams(v)),
            None => None,
        },
        match s.enable_connect_protocol {
            Some(b) => Some(Setting::EnableConnectProtocol(b)),
            None => None,
        },
        match s.h3_datagram {
            Some(b) => Some(Setting::H3Datagram(b)),
            None => None,
        },
    ]
}

/// The optional entries of the WebTransport parameters.
pub open spec fn wt_opts(w: webtransport::settings::Settings) -> Seq<Option<Setting>> {
    seq![
        webtransport::settings::entry_if(w.wt_enabled@ != 0, Setting::WtEnabled(w.wt_enabled)),
        webtransport::settings::entry_if(
            w.wt_initial_max_streams_uni@ != 0,
            Setting::WtInitialMaxStreamsUni(w.wt_initial_max_streams_uni),
        ),
        webtransport::settings::entry_if(
            w.wt_initial_max_streams_bidi@ != 0,
            Setting::WtInitialMaxStreamsBidi(w.wt_initial_max_streams_bidi),
        ),
        webtransport::settings::entry_if(w.wt_initial_max_data@ != 0, Setting::WtInitialMaxData(w.wt_initial_max_data)),
        match w.enable_webtransport_draft02 {
            Some(b) => Some(Setting::EnableWebTransportDraft02(b)),
            None => None,
        },
        match w.webtransport_max_sessions_draft07 {
            Some(v) => Some(Setting::WebTransportMaxSessionsDraft07(v)),
            None => None,
        },
        match w.wt_max_sessions_draft14 {
            Some(v) => Some(Setting::WtMaxSessionsDraft14(v)),
            None => None,
        },
    ]
}

/// The entries of a list of optional entries, those present in order.
pub open spec fn opts_entries(os: Seq<Option<Setting>>) -> Seq<Setting>
    decreases os.len(),
{
    if os.len() == 0 {
        seq![]
    } else {
        opts_entries(os.drop_last()) + opt_seq(os.last())
    }
}

/// Reading the entries of optional entries, one at a time.
pub open spec fn h3_fold_opts(s: Settings, os: Seq<Option<Setting>>) -> Settings
    decreases os.len(),
{
    if os.len() == 0 {
        s
    } else {
        h3_apply_opt(h3_fold_opts(s, os.drop_last()), os.last())
    }
}

/// Reading the entries of optional entries, one at a time.
pub open spec fn wt_fold_opts(w: webtransport::settings::Settings, os: Seq<Option<Setting>>) -> webtransport::settings::Settings
    decreases os.len(),
{
    if os.len() == 0 {
        w
    } else {
        wt_apply_opt(wt_fold_opts(w, os.drop_last()), os.last())
    }
}

/// Reading the entries of optional entries reads them one at a time.
proof fn lemma_fold_opts(s: Settings, w: webtransport::settings::Settings, os: Seq<Option<Setting>>)
    ensures
        h3_fold(s, opts_entries(os)) == h3_fold_opts(s, os),
        wt_fold(w, opts_entries(os)) == wt_fold_opts(w, os),
    decreases os.len(),
{
    if os.len() > 0 {
        lemma_fold_opts(s, w, os.drop_last());
        lemma_fold_snoc(s, w, opts_entries(os.drop_last()), os.last());
    }
}

/// The entries are those of the optional entries.
proof fn lemma_entries_opts(s: Settings, w: webtransport::settings::Settings)
    ensures
        h3_entries(s) == opts_entries(h3_opts(s)),
        wt_entries(w) == opts_entries(wt_opts(w)),
{
    reveal_with_fuel(opts_entries, 8);
    assert(h3_entries(s) =~= opts_entries(h3_opts(s)));
    assert(wt_entries(w) =~= opts_entries(wt_opts(w)));
}

/// The HTTP/3 reader on the HTTP/3 entries.
proof fn lemma_h3_reads_h3(s: Settings)
    ensures
        h3_fold_opts(settings_empty(), h3_opts(s)) == (Settings { wt_settings: None, ..s }),
{
    reveal_with_fuel(h3_fold_opts, 6);
}

/// The WebTransport reader skips the HTTP/3 entries.
proof fn lemma_wt_skips_h3(w: webtransport::settings::Settings, s: Settings)
    ensures
        wt_fold_opts(w, h3_opts(s)) == w,
{
    reveal_with_fuel(wt_fold_opts, 6);
}

/// The HTTP/3 reader skips the WebTransport entries.
proof fn lemma_h3_skips_wt(s: Settings, w: webtransport::settings::Settings)
    ensures
        h3_fold_opts(s, wt_opts(w)) == s,
{
    reveal_with_fuel(h3_fold_opts, 8);
}

/// The WebTransport reader on the WebTransport entries.
proof fn lemma_wt_reads_wt(w: webtransport::settings::Settings)
    ensures
        wt_fold_opts(webtransport::settings::Settings::new_spec(), wt_opts(w)) == w,
{
    reveal_with_fuel(wt_fold_opts, 8);
    VarInt::lemma_zero_spec();
    VarInt::lemma_view_injective(w.wt_enabled, VarInt::zero_spec());
    VarInt::lemma_view_injective(w.wt_initial_max_streams_uni, VarInt::zero_spec());
    VarInt::lemma_view_injective(w.wt_initial_max_streams_bidi, VarInt::zero_spec());
    VarInt::lemma_view_injective(w.wt_initial_max_data, VarInt::zero_spec());
}

/// Settings read back from the entries they send: the HTTP/3 parameters
/// as they were, and, where the settings hold WebTransport parameters, those
/// as they were too.
pub proof fn lemma_settings_roundtrip(s: Settings)
    ensures
        h3_fold(settings_empty(), settings_entries(s)) == (Settings { wt_settings: None, ..s }),
        s.wt_settings matches Some(w) ==> wt_fold(webtransport::settings::Settings::new_spec(), settings_entries(s))
            == w,
{
    let z = webtransport::settings::Settings::new_spec();
    let e = settings_empty();
    lemma_entries_opts(s, z);
    lemma_fold_opts(e, z, h3_opts(s));
    lemma_h3_reads_h3(s);
    lemma_wt_skips_h3(z, s);
    match s.wt_settings {
        Some(w) => {
            lemma_entries_opts(s, w);
            lemma_h3_fold_concat(e, h3_entries(s), wt_entries(w));
            lemma_wt_fold_concat(z, h3_entries(s), wt_entries(w));
            let hs = h3_fold(e, h3_entries(s));
            lemma_fold_opts(hs, z, wt_opts(w));
            lemma_h3_skips_wt(hs, w);
            lemma_wt_reads_wt(w);
        },
        None => {
            assert(settings_entries(s) =~= h3_entries(s));
        },
    }
}

impl Default for Settings {
    fn default() -> (r: Settings)
        ensures
            r == settings_empty(),
    {
        Settings::new()
    }
}

/// The message of a SETTINGS error.
pub open spec fn setting_error_message(e: SettingError) -> Seq<char> {
    match e {
        SettingError::Http2OnlyId { id } => "http/2 only settings id received: "@ + hex_chars(id@ as nat),
        SettingError::ReservedId { id } => "reserved settings id received: "@ + hex_chars(id@ as nat),
        SettingError::InvalidBooleanValue { id, value } => "boolean settings "@ + hex_chars(id@ as nat)
            + " has invalid value "@ + decimal_chars(value@ as nat),
        SettingError::DuplicateId { id } => "duplicate settings id: "@ + hex_chars(id@ as nat),
    }
}

impl SettingError {
    /// The message of this error.
    pub fn to_string(&self) -> (r: String)
        ensures
            r@ == setting_error_message(*self),
    {
        let mut v: Vec<char> = Vec::new();
        match self {
            SettingError::Http2OnlyId { id } => {
                push_str(&mut v, "http/2 only settings id received: ");
                push_hex(&mut v, id.get());
            },
            SettingError::ReservedId { id } => {
                push_str(&mut v, "reserved settings id received: ");
                push_hex(&mut v, id.get());
            },
            SettingError::InvalidBooleanValue { id, value } => {
                push_str(&mut v, "boolean settings ");
                push_hex(&mut v, id.get());
                push_str(&mut v, " has invalid value ");
                push_radix(&mut v, value.get(), 10);
            },
            SettingError::DuplicateId { id } => {
                push_str(&mut v, "duplicate settings id: ");
                push_hex(&mut v, id.get());
            },
        }
        assert(v@ =~= setting_error_message(*self));
        string_from_chars(v.as_slice())
    }
}

} // verus!
