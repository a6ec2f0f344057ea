//! The WebTransport SETTINGS of one endpoint (draft-ietf-webtrans-http3-15
//! Section 9.2, and the identifiers of drafts 02, 07 and 14).
//!
//! The wire form and the boolean checks belong to [`crate::settings::Setting`];
//! this module collects the WebTransport parameters out of it and reads
//! which draft a peer speaks.

use vstd::prelude::*;
use crate::settings::Setting;
use crate::varint::VarInt;
use crate::webtransport::connect::DraftVersion;

verus! {

/// The WebTransport parameters of one endpoint.
#[derive(Debug, Clone, Copy, PartialEq, Eq, Structural)]
pub struct Settings {
    /// SETTINGS_WT_ENABLED: above 0 enables draft 15 (default 0).
    pub wt_enabled: VarInt,
    /// The initial unidirectional stream limit (default 0).
    pub wt_initial_max_streams_uni: VarInt,
    /// The initial bidirectional stream limit (default 0).
    pub wt_initial_max_streams_bidi: VarInt,
    /// The initial data limit (default 0).
    pub wt_initial_max_data: VarInt,
    /// SETTINGS_ENABLE_WEBTRANSPORT of draft 02.
    pub enable_webtransport_draft02: Option<bool>,
    /// SETTINGS_WEBTRANSPORT_MAX_SESSIONS of draft 07.
    pub webtransport_max_sessions_draft07: Option<VarInt>,
    /// SETTINGS_WT_MAX_SESSIONS of draft 14.
    pub wt_max_sessions_draft14: Option<VarInt>,
}

/// `o` holds a value above `n`.
pub open spec fn opt_above(o: Option<VarInt>, n: u64) -> bool {
    o matches Some(v) && v@ > n
}

/// The settings with everything at its default.
pub open spec fn wt_default(s: Settings) -> bool {
    s.wt_enabled@ == 0 && s.wt_initial_max_streams_uni@ == 0 && s.wt_initial_max_streams_bidi@ == 0
        && s.wt_initial_max_data@ == 0 && s.enable_webtransport_draft02 is None
        && s.webtransport_max_sessions_draft07 is None && s.wt_max_sessions_draft14 is None
}

/// The draft a peer's settings announce, newest first, draft 07 before 14
/// (Safari sends both and expects draft 07 answers).
pub open spec fn draft_pattern_spec(s: Settings) -> Option<DraftVersion> {
    if s.wt_enabled@ > 0 {
        Some(DraftVersion::Draft15)
    } else if opt_above(s.webtransport_max_sessions_draft07, 0) {
        Some(DraftVersion::Draft07)
    } else if opt_above(s.wt_max_sessions_draft14, 0) {
        Some(DraftVersion::Draft14)
    } else if s.enable_webtransport_draft02 == Some(true) {
        Some(DraftVersion::Draft02)
    } else {
        None
    }
}

/// Some initial flow-control limit is non-zero.
pub open spec fn initial_limits_nonzero(s: Settings) -> bool {
    s.wt_initial_max_streams_uni@ != 0 || s.wt_initial_max_streams_bidi@ != 0
        || s.wt_initial_max_data@ != 0
}

/// The settings declare flow control (draft-14 and draft-15 Section 5.1).
pub open spec fn declares_flow_control_spec(s: Settings) -> bool {
    opt_above(s.wt_max_sessions_draft14, 1) || initial_limits_nonzero(s)
}

/// The settings after reading one more parameter: a WebTransport one
/// overwrites its field, others leave it.
pub open spec fn wt_apply(w: Settings, s: Setting) -> Settings {
    match s {
        Setting::WtEnabled(v) => Settings { wt_enabled: v, ..w },
        Setting::WtInitialMaxStreamsUni(v) => Settings { wt_initial_max_streams_uni: v, ..w },
        Setting::WtInitialMaxStreamsBidi(v) => Settings { wt_initial_max_streams_bidi: v, ..w },
        Setting::WtInitialMaxData(v) => Settings { wt_initial_max_data: v, ..w },
        Setting::EnableWebTransportDraft02(b) => Settings { enable_webtransport_draft02: Some(b), ..w },
        Setting::WebTransportMaxSessionsDraft07(v) => Settings {
            webtransport_max_sessions_draft07: Some(v),
            ..w
        },
        Setting::WtMaxSessionsDraft14(v) => Settings { wt_max_sessions_draft14: Some(v), ..w },
        _ => w,
    }
}

/// A WebTransport parameter.
pub open spec fn is_wt_setting(s: Setting) -> bool {
    match s {
        Setting::WtEnabled(_) | Setting::WtInitialMaxStreamsUni(_) | Setting::WtInitialMaxStreamsBidi(
            _,
        ) | Setting::WtInitialMaxData(_) | Setting::EnableWebTransportDraft02(_)
        | Setting::WebTransportMaxSessionsDraft07(_) | Setting::WtMaxSessionsDraft14(_) => true,
        _ => false,
    }
}

/// The WebTransport settings read from `s` in order onto `w`.
pub open spec fn wt_fold(w: Settings, s: Seq<Setting>) -> Settings
    decreases s.len(),
{
    if s.len() == 0 {
        w
    } else {
        wt_apply(wt_fold(w, s.drop_last()), s.last())
    }
}

/// The one-element sequence of `o`'s entry, or the empty one.
pub open spec fn opt_seq(o: Option<Setting>) -> Seq<Setting> {
    match o {
        Some(s) => seq![s],
        None => seq![],
    }
}

/// `s` when `c` holds.
pub open spec fn entry_if(c: bool, s: Setting) -> Option<Setting> {
    if c {
        Some(s)
    } else {
        None
    }
}

/// The WebTransport entries of `s`, in SETTINGS order, leaving out values
/// that are 0 or absent.
pub open spec fn wt_entries(s: Settings) -> Seq<Setting> {
    opt_seq(entry_if(s.wt_enabled@ != 0, Setting::WtEnabled(s.wt_enabled))) + opt_seq(
        entry_if(
            s.wt_initial_max_streams_uni@ != 0,
            Setting::WtInitialMaxStreamsUni(s.wt_initial_max_streams_uni),
        ),
    ) + opt_seq(
        entry_if(
            s.wt_initial_max_streams_bidi@ != 0,
            Setting::WtInitialMaxStreamsBidi(s.wt_initial_max_streams_bidi),
        ),
    ) + opt_seq(
        entry_if(s.wt_initial_max_data@ != 0, Setting::WtInitialMaxData(s.wt_initial_max_data)),
    ) + opt_seq(
        match s.enable_webtransport_draft02 {
            Some(b) => Some(Setting::EnableWebTransportDraft02(b)),
            None => None,
        },
    ) + opt_seq(
        match s.webtransport_max_sessions_draft07 {
            Some(v) => Some(Setting::WebTransportMaxSessionsDraft07(v)),
            None => None,
        },
    ) + opt_seq(
        match s.wt_max_sessions_draft14 {
            Some(v) => Some(Setting::WtMaxSessionsDraft14(v)),
            None => None,
        },
    )
}

/// Appends `o`'s entry, if any.
pub fn push_opt(v: &mut Vec<Setting>, o: Option<Setting>)
    ensures
        final(v)@ == old(v)@ + opt_seq(o),
{
    match o {
        Some(s) => {
            v.push(s);
        },
        None => {},
    }
    assert(final(v)@ =~= old(v)@ + opt_seq(o)) by {
        assert(v@ =~= old(v)@ + opt_seq(o));
    }
}

fn above(o: Option<VarInt>, n: u64) -> (r: bool)
    ensures
        r == opt_above(o, n),
{
    match o {
        Some(v) => v.get() > n,
        None => false,
    }
}

impl Settings {
    /// All parameters at their defaults: zeros and absent.
    pub fn new() -> (r: Settings)
        ensures
            wt_default(r),
            r == Settings::new_spec(),
    {
        Settings {
            wt_enabled: VarInt::ZERO(),
            wt_initial_max_streams_uni: VarInt::ZERO(),
            wt_initial_max_streams_bidi: VarInt::ZERO(),
            wt_initial_max_data: VarInt::ZERO(),
            enable_webtransport_draft02: None,
            webtransport_max_sessions_draft07: None,
            wt_max_sessions_draft14: None,
        }
    }

    /// These settings with SETTINGS_WT_ENABLED set.
    pub fn wt_enabled(self, value: VarInt) -> (r: Settings)
        ensures
            r == (Settings { wt_enabled: value, ..self }),
    {
        Settings { wt_enabled: value, ..self }
    }

    /// These settings with the initial unidirectional stream limit set.
    pub fn wt_initial_max_streams_uni(self, max_streams: VarInt) -> (r: Settings)
        ensures
            r == (Settings { wt_initial_max_streams_uni: max_streams, ..self }),
    {
        Settings { wt_initial_max_streams_uni: max_streams, ..self }
    }

    /// These settings with the initial bidirectional stream limit set.
    pub fn wt_initial_max_streams_bidi(self, max_streams: VarInt) -> (r: Settings)
        ensures
            r == (Settings { wt_initial_max_streams_bidi: max_streams, ..self }),
    {
        Settings { wt_initial_max_streams_bidi: max_streams, ..self }
    }

    /// These settings with the initial data limit set.
    pub fn wt_initial_max_data(self, max_data: VarInt) -> (r: Settings)
        ensures
            r == (Settings { wt_initial_max_data: max_data, ..self }),
    {
        Settings { wt_initial_max_data: max_data, ..self }
    }

    /// These settings with the draft-02 enable flag set.
    pub fn enable_webtransport_draft02(self, enable: bool) -> (r: Settings)
        ensures
            r == (Settings { enable_webtransport_draft02: Some(enable), ..self }),
    {
        Settings { enable_webtransport_draft02: Some(enable), ..self }
    }

    /// These settings with the draft-07 session limit set.
    pub fn webtransport_max_sessions_draft07(self, max_sessions: VarInt) -> (r: Settings)
        ensures
            r == (Settings { webtransport_max_sessions_draft07: Some(max_sessions), ..self }),
    {
        Settings { webtransport_max_sessions_draft07: Some(max_sessions), ..self }
    }

    /// These settings with the draft-14 session limit set.
    pub fn wt_max_sessions_draft14(self, max_sessions: VarInt) -> (r: Settings)
        ensures
            r == (Settings { wt_max_sessions_draft14: Some(max_sessions), ..self }),
    {
        Settings { wt_max_sessions_draft14: Some(max_sessions), ..self }
    }

    /// The WebTransport parameters of a SETTINGS payload, the last of each
    /// kind winning; `None` when the payload holds none.
    pub fn from_payload(settings: &[Setting]) -> (r: Option<Settings>)
        ensures
            (exists|i: int| 0 <= i < settings@.len() && is_wt_setting(#[trigger] settings@[i]))
                ==> r == Some(wt_fold(Settings::new_spec(), settings@)),
            (forall|i: int| 0 <= i < settings@.len() ==> !is_wt_setting(#[trigger] settings@[i]))
                ==> r is None,
    {
        let mut wt = Settings::new();
        let ghost d = wt;
        let mut found = false;
        let mut i: usize = 0;
        while i < settings.len()
            invariant
                i <= settings@.len(),
                d == Settings::new_spec(),
                wt == wt_fold(d, settings@.take(i as int)),
                found == exists|k: int| 0 <= k < i && is_wt_setting(#[trigger] settings@[k]),
            decreases settings.len() - i,
        {
            assert(settings@.take(i + 1).drop_last() =~= settings@.take(i as int));
            match settings[i] {
                Setting::WtEnabled(v) => {
                    wt.wt_enabled = v;
                    found = true;
                },
                Setting::WtInitialMaxStreamsUni(v) => {
                    wt.wt_initial_max_streams_uni = v;
                    found = true;
                },
                Setting::WtInitialMaxStreamsBidi(v) => {
                    wt.wt_initial_max_streams_bidi = v;
                    found = true;
                },
                Setting::WtInitialMaxData(v) => {
                    wt.wt_initial_max_data = v;
                    found = true;
                },
                Setting::EnableWebTransportDraft02(b) => {
                    wt.enable_webtransport_draft02 = Some(b);
                    found = true;
                },
                Setting::WebTransportMaxSessionsDraft07(v) => {
                    wt.webtransport_max_sessions_draft07 = Some(v);
                    found = true;
                },
                Setting::WtMaxSessionsDraft14(v) => {
                    wt.wt_max_sessions_draft14 = Some(v);
                    found = true;
                },
                _ => {},
            }
            i = i + 1;
        }
        assert(settings@.take(settings@.len() as int) =~= settings@);
        if found {
            Some(wt)
        } else {
            None
        }
    }

    /// The default settings, as a spec value.
    pub open spec fn new_spec() -> Settings {
        Settings {
            wt_enabled: VarInt::zero_spec(),
            wt_initial_max_streams_uni: VarInt::zero_spec(),
            wt_initial_max_streams_bidi: VarInt::zero_spec(),
            wt_initial_max_data: VarInt::zero_spec(),
            enable_webtransport_draft02: None,
            webtransport_max_sessions_draft07: None,
            wt_max_sessions_draft14: None,
        }
    }

    /// The draft the settings announce (see [`draft_pattern_spec`]).
    pub fn detect_draft_pattern(&self) -> (r: Option<DraftVersion>)
        ensures
            r == draft_pattern_spec(*self),
    {
        if self.wt_enabled.get() > 0 {
            return Some(DraftVersion::Draft15);
        }
        if above(self.webtransport_max_sessions_draft07, 0) {
            return Some(DraftVersion::Draft07);
        }
        if above(self.wt_max_sessions_draft14, 0) {
            return Some(DraftVersion::Draft14);
        }
        if self.enable_webtransport_draft02 == Some(true) {
            return Some(DraftVersion::Draft02);
        }
        None
    }

    /// Whether any draft's WebTransport is enabled.
    pub fn is_enabled(&self) -> (r: bool)
        ensures
            r == (draft_pattern_spec(*self) is Some),
    {
        self.wt_enabled.get() > 0 || self.enable_webtransport_draft02 == Some(true) || above(
            self.webtransport_max_sessions_draft07,
            0,
        ) || above(self.wt_max_sessions_draft14, 0)
    }

    /// Whether the settings declare flow control (draft-14 and draft-15 Section 5.1).
    pub fn declares_flow_control(&self) -> (r: bool)
        ensures
            r == declares_flow_control_spec(*self),
    {
        above(self.wt_max_sessions_draft14, 1) || self.wt_initial_max_streams_uni.get() != 0
            || self.wt_initial_max_streams_bidi.get() != 0 || self.wt_initial_max_data.get() != 0
    }

    /// Flow control is in force when both endpoints declare it (Section 5.1).
    pub fn flow_control_enabled_with_peer(&self, peer: &Settings) -> (r: bool)
        ensures
            r == (declares_flow_control_spec(*self) && declares_flow_control_spec(*peer)),
    {
        self.declares_flow_control() && peer.declares_flow_control()
    }

    /// Whether the peer needs the initial flow-control capsules right after
    /// the session opens: draft 14, or draft 07 with non-zero initial limits
    /// (as Safari sends).
    pub fn requires_initial_capsule_flow_control_compat(&self) -> (r: bool)
        ensures
            r == match draft_pattern_spec(*self) {
                Some(DraftVersion::Draft14) => true,
                Some(DraftVersion::Draft07) => initial_limits_nonzero(*self),
                _ => false,
            },
    {
        match self.detect_draft_pattern() {
            Some(DraftVersion::Draft14) => true,
            Some(DraftVersion::Draft07) => {
                self.wt_initial_max_streams_uni.get() != 0 || self.wt_initial_max_streams_bidi.get()
                    != 0 || self.wt_initial_max_data.get() != 0
            },
            _ => false,
        }
    }

    /// The entries these settings send, leaving out zeros and absent values.
    pub fn iter(&self) -> (r: Vec<Setting>)
        ensures
            r@ == wt_entries(*self),
    {
        let mut v: Vec<Setting> = Vec::new();
        push_opt(
            &mut v,
            if self.wt_enabled.get() != 0 {
                Some(Setting::WtEnabled(self.wt_enabled))
            } else {
                None
            },
        );
        assert(v@ =~= opt_seq(
            entry_if(self.wt_enabled@ != 0, Setting::WtEnabled(self.wt_enabled)),
        ));
        push_opt(
            &mut v,
            if self.wt_initial_max_streams_uni.get() != 0 {
                Some(Setting::WtInitialMaxStreamsUni(self.wt_initial_max_streams_uni))
            } else {
                None
            },
        );
        push_opt(
            &mut v,
            if self.wt_initial_max_streams_bidi.get() != 0 {
                Some(Setting::WtInitialMaxStreamsBidi(self.wt_initial_max_streams_bidi))
            } else {
                None
            },
        );
        push_opt(
            &mut v,
            if self.wt_initial_max_data.get() != 0 {
                Some(Setting::WtInitialMaxData(self.wt_initial_max_data))
            } else {
                None
            },
        );
        push_opt(
            &mut v,
            match self.enable_webtransport_draft02 {
                Some(b) => Some(Setting::EnableWebTransportDraft02(b)),
                None => None,
            },
        );
        push_opt(
            &mut v,
            match self.webtransport_max_sessions_draft07 {
                Some(x) => Some(Setting::WebTransportMaxSessionsDraft07(x)),
                None => None,
            },
        );
        push_opt(
            &mut v,
            match self.wt_max_sessions_draft14 {
                Some(x) => Some(Setting::WtMaxSessionsDraft14(x)),
                None => None,
            },
        );
        v
    }
}

impl Default for Settings {
    fn default() -> (r: Settings)
        ensures
            wt_default(r),
    {
        Settings::new()
    }
}

} // verus!
