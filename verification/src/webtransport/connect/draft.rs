//! WebTransport draft versions and the SETTINGS each one sends
//! (draft-ietf-webtrans-http3-02, -07, -14 and -15).

use vstd::prelude::*;
use crate::varint::VarInt;
use crate::webtransport::settings::Settings;
use crate::webtransport::connect::{PROTOCOL_WEBTRANSPORT_H3, PROTOCOL_WEBTRANSPORT_DRAFT02};

verus! {

/// A WebTransport draft version, told apart by SETTINGS and `:protocol`.
#[derive(Debug, Clone, Copy, PartialEq, Eq, Structural)]
pub enum DraftVersion {
    /// draft-02: `:protocol` `webtransport`, SETTINGS_ENABLE_WEBTRANSPORT.
    Draft02,
    /// draft-07: `:protocol` `webtransport`, SETTINGS_WEBTRANSPORT_MAX_SESSIONS.
    Draft07,
    /// draft-14: `:protocol` `webtransport`, SETTINGS_WT_MAX_SESSIONS and
    /// capsule-based flow control.
    Draft14,
    /// draft-15: `:protocol` `webtransport-h3`, SETTINGS_WT_ENABLED.
    Draft15,
}

/// The parameters the SETTINGS of a draft are built from.
#[derive(Debug, Clone, Copy, PartialEq, Eq, Structural)]
pub struct ServerSettingsParams {
    /// The maximum number of sessions (drafts 07 and 14).
    pub max_sessions: VarInt,
    /// The initial unidirectional stream limit (drafts 14 and 15).
    pub initial_max_streams_uni: VarInt,
    /// The initial bidirectional stream limit (drafts 14 and 15).
    pub initial_max_streams_bidi: VarInt,
    /// The initial data limit (drafts 14 and 15).
    pub initial_max_data: VarInt,
}

impl ServerSettingsParams {
    /// One session, 100 streams each way, 8 MiB of data.
    pub fn new() -> (r: ServerSettingsParams)
        ensures
            r.max_sessions@ == 1,
            r.initial_max_streams_uni@ == 100,
            r.initial_max_streams_bidi@ == 100,
            r.initial_max_data@ == 8 * 1024 * 1024,
    {
        ServerSettingsParams {
            max_sessions: VarInt::from_static(1),
            initial_max_streams_uni: VarInt::from_static(100),
            initial_max_streams_bidi: VarInt::from_static(100),
            initial_max_data: VarInt::from_static(8 * 1024 * 1024),
        }
    }
}

impl Default for ServerSettingsParams {
    fn default() -> (r: ServerSettingsParams)
        ensures
            r.max_sessions@ == 1,
            r.initial_max_streams_uni@ == 100,
            r.initial_max_streams_bidi@ == 100,
            r.initial_max_data@ == 8 * 1024 * 1024,
    {
        ServerSettingsParams::new()
    }
}

/// The characters of `webtransport-h3`.
pub open spec fn protocol_h3_chars() -> Seq<char> {
    seq!['w', 'e', 'b', 't', 'r', 'a', 'n', 's', 'p', 'o', 'r', 't', '-', 'h', '3']
}

/// The characters of `webtransport`.
pub open spec fn protocol_draft02_chars() -> Seq<char> {
    seq!['w', 'e', 'b', 't', 'r', 'a', 'n', 's', 'p', 'o', 'r', 't']
}

/// The `:protocol` value of a draft.
pub open spec fn protocol_value_spec(d: DraftVersion) -> Seq<char> {
    match d {
        DraftVersion::Draft15 => protocol_h3_chars(),
        _ => protocol_draft02_chars(),
    }
}

/// The settings a server answers a client of draft `d` with.
pub open spec fn server_settings_spec(d: DraftVersion, p: ServerSettingsParams) -> Settings {
    match d {
        DraftVersion::Draft15 => Settings {
            wt_enabled: VarInt::spec_new(1),
            wt_initial_max_streams_uni: p.initial_max_streams_uni,
            wt_initial_max_streams_bidi: p.initial_max_streams_bidi,
            wt_initial_max_data: p.initial_max_data,
            ..Settings::new_spec()
        },
        DraftVersion::Draft14 => Settings {
            wt_max_sessions_draft14: Some(p.max_sessions),
            webtransport_max_sessions_draft07: Some(p.max_sessions),
            ..Settings::new_spec()
        },
        DraftVersion::Draft07 => Settings {
            webtransport_max_sessions_draft07: Some(p.max_sessions),
            ..Settings::new_spec()
        },
        DraftVersion::Draft02 => Settings {
            enable_webtransport_draft02: Some(true),
            ..Settings::new_spec()
        },
    }
}

/// The settings a client of draft `d` sends.
pub open spec fn client_settings_spec(d: DraftVersion, p: ServerSettingsParams) -> Settings {
    match d {
        DraftVersion::Draft14 => Settings {
            wt_max_sessions_draft14: Some(p.max_sessions),
            wt_initial_max_streams_uni: p.initial_max_streams_uni,
            wt_initial_max_streams_bidi: p.initial_max_streams_bidi,
            wt_initial_max_data: p.initial_max_data,
            ..Settings::new_spec()
        },
        _ => server_settings_spec(d, p),
    }
}

impl DraftVersion {
    /// The `:protocol` value of this draft: `webtransport-h3` for draft 15,
    /// `webtransport` before it.
    pub fn protocol_value(self) -> (r: &'static str)
        ensures
            r@ == protocol_value_spec(self),
    {
        match self {
            DraftVersion::Draft15 => {
                proof {
                    reveal_strlit("webtransport-h3");
                }
                PROTOCOL_WEBTRANSPORT_H3
            },
            _ => {
                proof {
                    reveal_strlit("webtransport");
                }
                PROTOCOL_WEBTRANSPORT_DRAFT02
            },
        }
    }

    /// The SETTINGS a server sends to a client of this draft. Draft 14 gets
    /// the session limit under both the draft-07 and the draft-14
    /// identifiers and no initial limits (Safari refuses them; they follow
    /// as capsules).
    pub fn build_server_settings(self, params: &ServerSettingsParams) -> (r: Settings)
        ensures
            r == server_settings_spec(self, *params),
    {
        match self {
            DraftVersion::Draft15 => Settings::new().wt_enabled(VarInt::from_static(1)).wt_initial_max_streams_uni(
                params.initial_max_streams_uni,
            ).wt_initial_max_streams_bidi(params.initial_max_streams_bidi).wt_initial_max_data(
                params.initial_max_data,
            ),
            DraftVersion::Draft14 => Settings::new().wt_max_sessions_draft14(
                params.max_sessions,
            ).webtransport_max_sessions_draft07(params.max_sessions),
            DraftVersion::Draft07 => Settings::new().webtransport_max_sessions_draft07(
                params.max_sessions,
            ),
            DraftVersion::Draft02 => Settings::new().enable_webtransport_draft02(true),
        }
    }

    /// Whether a session of this draft starts by sending the initial
    /// flow-control capsules (draft 14 only).
    pub fn requires_initial_capsule_flow_control(self) -> (r: bool)
        ensures
            r == (self == DraftVersion::Draft14),
    {
        match self {
            DraftVersion::Draft14 => true,
            _ => false,
        }
    }

    /// Whether a client of this draft needs the server's
    /// SETTINGS_ENABLE_CONNECT_PROTOCOL (drafts 07, 14 and 15).
    pub fn requires_enable_connect_protocol(self) -> (r: bool)
        ensures
            r == (self != DraftVersion::Draft02),
    {
        match self {
            DraftVersion::Draft02 => false,
            _ => true,
        }
    }

    /// Whether this draft needs the `reset_stream_at` transport parameter
    /// (drafts 14 and 15).
    pub fn requires_reset_stream_at(self) -> (r: bool)
        ensures
            r == (self == DraftVersion::Draft14 || self == DraftVersion::Draft15),
    {
        match self {
            DraftVersion::Draft14 | DraftVersion::Draft15 => true,
            _ => false,
        }
    }

    /// The WebTransport SETTINGS a client of this draft sends.
    pub fn build_client_settings(self, params: &ServerSettingsParams) -> (r: Settings)
        ensures
            r == client_settings_spec(self, *params),
    {
        match self {
            DraftVersion::Draft14 => Settings::new().wt_max_sessions_draft14(
                params.max_sessions,
            ).wt_initial_max_streams_uni(params.initial_max_streams_uni).wt_initial_max_streams_bidi(
                params.initial_max_streams_bidi,
            ).wt_initial_max_data(params.initial_max_data),
            _ => self.build_server_settings(params),
        }
    }
}

} // verus!
