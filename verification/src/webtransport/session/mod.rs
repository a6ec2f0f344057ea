//! WebTransport sessions (draft-ietf-webtrans-http3-15 Sections 3 and 6):
//! the session state machine, its streams, flow control in both
//! directions, the capsules it queues and the ones it receives.

pub mod flow_control;

use vstd::prelude::*;
use crate::text::{truncate_text, truncated_text};
use crate::webtransport::capsule::{Capsule, CapsuleView, MAX_STREAMS_LIMIT, view_type,
    PROHIBITED_WT_MAX_STREAM_DATA_CAPSULE_TYPE, PROHIBITED_WT_STREAM_DATA_BLOCKED_CAPSULE_TYPE};
use crate::webtransport::error::{Error, ErrorView, ErrorCode, application_view};
use crate::webtransport::stream::{Stream, StreamView};
use self::flow_control::{
    FlowControlLimits, FlowControlState, DirectionalStreamFlowControl, DataFlowControl,
    SendBlockedState, StreamWindowView, DataWindowView, sat_add, sat_sub, stream_window_new,
    data_window_new, stream_window_closed, stream_window_raise, data_window_consumed,
    data_window_raise,
};

verus! {

/// The most streams buffered before the session is established (Section 4.6).
pub const MAX_BUFFERED_STREAMS: usize = 100;

/// The most datagrams buffered before the session is established (Section 4.6).
pub const MAX_BUFFERED_DATAGRAMS: usize = 100;

/// A stream that arrived before its session was established (Section 4.6).
#[derive(Debug, Clone, PartialEq, Eq, Structural)]
pub struct BufferedStream {
    /// The stream ID.
    pub stream_id: u64,
    /// Whether the stream is bidirectional.
    pub is_bidirectional: bool,
}

/// Where a session is in its life.
#[derive(Debug, Clone, Copy, PartialEq, Eq, Structural)]
pub enum SessionState {
    /// Before the CONNECT request.
    Pending,
    /// CONNECT sent, awaiting the response.
    Connecting,
    /// Established.
    Established,
    /// Winding down.
    Draining,
    /// Closed.
    Closed,
}

/// Whether streams can be opened, and data sent or received, in a state.
pub open spec fn is_active(s: SessionState) -> bool {
    s == SessionState::Established || s == SessionState::Draining
}

impl Default for SessionState {
    fn default() -> (r: SessionState)
        ensures
            r == SessionState::Pending,
    {
        SessionState::Pending
    }
}

impl SessionState {
    /// Whether streams can be opened: established or draining.
    pub fn can_create_stream(self) -> (r: bool)
        ensures
            r == is_active(self),
    {
        matches!(self, SessionState::Established | SessionState::Draining)
    }

    /// Whether data can be sent: established or draining.
    pub fn can_send(self) -> (r: bool)
        ensures
            r == is_active(self),
    {
        matches!(self, SessionState::Established | SessionState::Draining)
    }

    /// Whether data can be received: established or draining.
    pub fn can_receive(self) -> (r: bool)
        ensures
            r == is_active(self),
    {
        matches!(self, SessionState::Established | SessionState::Draining)
    }
}

/// Why a received capsule was not accepted.
#[derive(Debug, Clone, PartialEq, Eq)]
pub enum CapsuleProcessError {
    /// The session must end with this error.
    Session(Error),
}

/// The abstract state of a session.
pub struct SessionView {
    /// The session ID.
    pub session_id: u64,
    /// The state.
    pub state: SessionState,
    /// The streams, by ID, in the order they were added.
    pub streams: Seq<(u64, StreamView)>,
    /// The limits the peer set.
    pub remote_limits: FlowControlLimits,
    /// The limits this side set.
    pub local_limits: FlowControlLimits,
    /// What has been used of the limits.
    pub flow_state: FlowControlState,
    /// Whether flow control is in force (Section 5.1).
    pub flow_control_enabled: bool,
    /// Capsules waiting to be sent.
    pub pending_capsules: Seq<CapsuleView>,
    /// Streams to reset with WT_SESSION_GONE since the session ended.
    pub pending_stream_resets: Seq<u64>,
    /// Why the session closed.
    pub close_error: Option<ErrorView>,
    /// Streams buffered before the session was established.
    pub buffered_streams: Seq<BufferedStream>,
    /// Datagrams buffered before the session was established.
    pub buffered_datagrams: Seq<Seq<u8>>,
    /// Whether an HTTP/3 GOAWAY came in.
    pub goaway_received: bool,
    /// Whether WT_CLOSE_SESSION came in.
    pub close_session_received: bool,
    /// Whether WT_CLOSE_SESSION went out.
    pub close_session_sent: bool,
    /// The window on unidirectional streams the peer opens.
    pub recv_stream_fc_uni: StreamWindowView,
    /// The window on bidirectional streams the peer opens.
    pub recv_stream_fc_bidi: StreamWindowView,
    /// The window on the data the peer sends.
    pub recv_data_fc: DataWindowView,
    /// The limits already reported as blocking.
    pub send_blocked: SendBlockedState,
}

/// The IDs of the streams, in order.
pub open spec fn stream_keys(s: Seq<(u64, StreamView)>) -> Seq<u64> {
    s.map_values(|e: (u64, StreamView)| e.0)
}

/// Whether `i` is the first position of stream `id`.
pub open spec fn is_first_index(s: Seq<(u64, StreamView)>, id: u64, i: int) -> bool {
    &&& 0 <= i < s.len()
    &&& s[i].0 == id
    &&& forall|j: int| 0 <= j < i ==> s[j].0 != id
}

/// The position of stream `id`, or -1.
pub open spec fn stream_index(s: Seq<(u64, StreamView)>, id: u64) -> int {
    if exists|i: int| is_first_index(s, id, i) {
        choose|i: int| is_first_index(s, id, i)
    } else {
        -1
    }
}

/// The first position of a stream is unique.
pub proof fn lemma_stream_index(s: Seq<(u64, StreamView)>, id: u64, i: int)
    requires
        0 <= i <= s.len(),
        forall|j: int| 0 <= j < i ==> s[j].0 != id,
    ensures
        i < s.len() && s[i].0 == id ==> stream_index(s, id) == i,
        i == s.len() ==> stream_index(s, id) == -1,
{
    if i < s.len() && s[i].0 == id {
        assert(is_first_index(s, id, i));
        let k = choose|k: int| is_first_index(s, id, k);
        assert(is_first_index(s, id, k));
        if k < i {
            assert(s[k].0 != id);
        }
        if k > i {
            assert(s[i].0 != id);
        }
    }
    if i == s.len() {
        assert(!exists|k: int| is_first_index(s, id, k)) by {
            if exists|k: int| is_first_index(s, id, k) {
                let k = choose|k: int| is_first_index(s, id, k);
                assert(s[k].0 != id);
            }
        }
    }
}

/// The streams after adding `st` under `id`: it replaces a stream with the
/// same ID, else it goes last.
pub open spec fn streams_with(s: Seq<(u64, StreamView)>, id: u64, st: StreamView) -> Seq<(u64, StreamView)> {
    let i = stream_index(s, id);
    if i >= 0 {
        s.update(i, (id, st))
    } else {
        s.push((id, st))
    }
}

/// The streams after removing the one with ID `id`.
pub open spec fn streams_without(s: Seq<(u64, StreamView)>, id: u64) -> Seq<(u64, StreamView)> {
    let i = stream_index(s, id);
    if i >= 0 {
        s.remove(i)
    } else {
        s
    }
}

/// A session after it closes with `e`: the streams it had become the
/// streams to reset, unless it was closed already.
pub open spec fn closed_view(v: SessionView, e: Option<ErrorView>) -> SessionView {
    SessionView {
        state: SessionState::Closed,
        close_error: e,
        pending_stream_resets: if v.state != SessionState::Closed {
            stream_keys(v.streams)
        } else {
            v.pending_stream_resets
        },
        ..v
    }
}

/// A session after a capsule is queued; a closed session queues nothing.
pub open spec fn queued_view(v: SessionView, c: CapsuleView) -> SessionView {
    if v.state == SessionState::Closed {
        v
    } else {
        SessionView { pending_capsules: v.pending_capsules.push(c), ..v }
    }
}

/// A session after `set_draining`.
pub open spec fn draining_view(v: SessionView) -> SessionView {
    if v.state == SessionState::Established {
        SessionView { state: SessionState::Draining, ..v }
    } else {
        v
    }
}

/// The error that ends a session on a received capsule the rules refuse.
pub open spec fn flow_control_error() -> ErrorView {
    ErrorView::Protocol(ErrorCode::FlowControlError)
}

/// The message of the error for a capsule HTTP/3 forbids.
pub open spec fn prohibited_message() -> Seq<char> {
    seq!['p', 'r', 'o', 'h', 'i', 'b', 'i', 't', 'e', 'd', ' ', 'c', 'a', 'p', 's', 'u', 'l', 'e', ' ', 'r', 'e', 'c', 'e', 'i', 'v', 'e', 'd']
}

/// What receiving a capsule does to a session: the new session, or the
/// error that ends it (the session is then left as it was).
pub open spec fn capsule_outcome(v: SessionView, c: CapsuleView) -> Result<SessionView, ErrorView> {
    if view_type(c) == PROHIBITED_WT_MAX_STREAM_DATA_CAPSULE_TYPE || view_type(c)
        == PROHIBITED_WT_STREAM_DATA_BLOCKED_CAPSULE_TYPE {
        Err(application_view(0, prohibited_message()))
    } else if !v.flow_control_enabled && (c is MaxData || c is MaxStreams || c is DataBlocked
        || c is StreamsBlocked) {
        Ok(v)
    } else {
        match c {
            CapsuleView::CloseSession { error_code, message } => Ok(
                closed_view(
                    SessionView { close_session_received: true, ..v },
                    Some(application_view(error_code, message)),
                ),
            ),
            CapsuleView::DrainSession => Ok(draining_view(v)),
            CapsuleView::MaxData { maximum } => if maximum <= v.remote_limits.max_data {
                Err(flow_control_error())
            } else {
                Ok(
                    SessionView {
                        remote_limits: FlowControlLimits { max_data: maximum, ..v.remote_limits },
                        send_blocked: SendBlockedState { last_data_blocked: None, ..v.send_blocked },
                        ..v
                    },
                )
            },
            CapsuleView::MaxStreams { bidirectional, maximum } => if maximum > MAX_STREAMS_LIMIT {
                Err(flow_control_error())
            } else if bidirectional {
                if maximum <= v.remote_limits.max_streams_bidi {
                    Err(flow_control_error())
                } else {
                    Ok(
                        SessionView {
                            remote_limits: FlowControlLimits {
                                max_streams_bidi: maximum,
                                ..v.remote_limits
                            },
                            send_blocked: SendBlockedState {
                                last_streams_blocked_bidi: None,
                                ..v.send_blocked
                            },
                            ..v
                        },
                    )
                }
            } else {
                if maximum <= v.remote_limits.max_streams_uni {
                    Err(flow_control_error())
                } else {
                    Ok(
                        SessionView {
                            remote_limits: FlowControlLimits {
                                max_streams_uni: maximum,
                                ..v.remote_limits
                            },
                            send_blocked: SendBlockedState {
                                last_streams_blocked_uni: None,
                                ..v.send_blocked
                            },
                            ..v
                        },
                    )
                }
            },
            CapsuleView::DataBlocked { .. } => Ok(v),
            CapsuleView::StreamsBlocked { maximum, .. } => if maximum > MAX_STREAMS_LIMIT {
                Err(flow_control_error())
            } else {
                Ok(v)
            },
            CapsuleView::Unknown { .. } => Ok(v),
        }
    }
}

/// A WebTransport session.
#[derive(Debug)]
pub struct Session {
    session_id: u64,
    state: SessionState,
    streams: Vec<(u64, Stream)>,
    remote_limits: FlowControlLimits,
    local_limits: FlowControlLimits,
    flow_state: FlowControlState,
    flow_control_enabled: bool,
    pending_capsules: Vec<Capsule>,
    pending_stream_resets: Vec<u64>,
    close_error: Option<Error>,
    buffered_streams: Vec<BufferedStream>,
    buffered_datagrams: Vec<Vec<u8>>,
    goaway_received: bool,
    close_session_received: bool,
    close_session_sent: bool,
    recv_stream_fc_uni: DirectionalStreamFlowControl,
    recv_stream_fc_bidi: DirectionalStreamFlowControl,
    recv_data_fc: DataFlowControl,
    send_blocked: SendBlockedState,
}

impl View for Session {
    type V = SessionView;

    closed spec fn view(&self) -> SessionView {
        SessionView {
            session_id: self.session_id,
            state: self.state,
            streams: self.streams@.map_values(|e: (u64, Stream)| (e.0, e.1@)),
            remote_limits: self.remote_limits,
            local_limits: self.local_limits,
            flow_state: self.flow_state,
            flow_control_enabled: self.flow_control_enabled,
            pending_capsules: self.pending_capsules@.map_values(|c: Capsule| c@),
            pending_stream_resets: self.pending_stream_resets@,
            close_error: match self.close_error {
                Some(e) => Some(e@),
                None => None,
            },
            buffered_streams: self.buffered_streams@,
            buffered_datagrams: self.buffered_datagrams@.map_values(|d: Vec<u8>| d@),
            goaway_received: self.goaway_received,
            close_session_received: self.close_session_received,
            close_session_sent: self.close_session_sent,
            recv_stream_fc_uni: self.recv_stream_fc_uni@,
            recv_stream_fc_bidi: self.recv_stream_fc_bidi@,
            recv_data_fc: self.recv_data_fc@,
            send_blocked: self.send_blocked,
        }
    }
}

impl Session {
    /// The state of a new session.
    pub open spec fn new_view(session_id: u64) -> SessionView {
        SessionView {
            session_id,
            state: SessionState::Pending,
            streams: Seq::empty(),
            remote_limits: FlowControlLimits::zero(),
            local_limits: FlowControlLimits::zero(),
            flow_state: FlowControlState::zero(),
            flow_control_enabled: true,
            pending_capsules: Seq::empty(),
            pending_stream_resets: Seq::empty(),
            close_error: None,
            buffered_streams: Seq::empty(),
            buffered_datagrams: Seq::empty(),
            goaway_received: false,
            close_session_received: false,
            close_session_sent: false,
            recv_stream_fc_uni: stream_window_new(0),
            recv_stream_fc_bidi: stream_window_new(0),
            recv_data_fc: data_window_new(0),
            send_blocked: SendBlockedState::none(),
        }
    }

    /// A new pending session on the CONNECT stream `session_id`, with
    /// flow control in force and all limits zero.
    pub fn new(session_id: u64) -> (r: Session)
        ensures
            r@ == Self::new_view(session_id),
    {
        let r = Session {
            session_id,
            state: SessionState::Pending,
            streams: Vec::new(),
            remote_limits: FlowControlLimits::new(),
            local_limits: FlowControlLimits::new(),
            flow_state: FlowControlState::new(),
            flow_control_enabled: true,
            pending_capsules: Vec::new(),
            pending_stream_resets: Vec::new(),
            close_error: None,
            buffered_streams: Vec::new(),
            buffered_datagrams: Vec::new(),
            goaway_received: false,
            close_session_received: false,
            close_session_sent: false,
            recv_stream_fc_uni: DirectionalStreamFlowControl::new(0),
            recv_stream_fc_bidi: DirectionalStreamFlowControl::new(0),
            recv_data_fc: DataFlowControl::new(0),
            send_blocked: SendBlockedState {
                last_streams_blocked_uni: None,
                last_streams_blocked_bidi: None,
                last_data_blocked: None,
            },
        };
        assert(r@.streams =~= Seq::empty());
        assert(r@.pending_capsules =~= Seq::empty());
        assert(r@.buffered_datagrams =~= Seq::empty());
        r
    }

    /// The session ID.
    pub fn session_id(&self) -> (r: u64)
        ensures
            r == self@.session_id,
    {
        self.session_id
    }

    /// The state.
    pub fn state(&self) -> (r: SessionState)
        ensures
            r == self@.state,
    {
        self.state
    }

    /// Whether the session is established.
    pub fn is_established(&self) -> (r: bool)
        ensures
            r == (self@.state == SessionState::Established),
    {
        self.state == SessionState::Established
    }

    /// Whether the session is closed.
    pub fn is_closed(&self) -> (r: bool)
        ensures
            r == (self@.state == SessionState::Closed),
    {
        self.state == SessionState::Closed
    }

    /// Pending becomes connecting; any other state stays.
    pub fn set_connecting(&mut self)
        ensures
            final(self)@ == (if old(self)@.state == SessionState::Pending {
                SessionView { state: SessionState::Connecting, ..old(self)@ }
            } else {
                old(self)@
            }),
    {
        if self.state == SessionState::Pending {
            self.state = SessionState::Connecting;
        }
    }

    /// Pending or connecting becomes established; any other state stays.
    pub fn set_established(&mut self)
        ensures
            final(self)@ == (if old(self)@.state == SessionState::Pending || old(self)@.state
                == SessionState::Connecting {
                SessionView { state: SessionState::Established, ..old(self)@ }
            } else {
                old(self)@
            }),
    {
        if matches!(self.state, SessionState::Pending | SessionState::Connecting) {
            self.state = SessionState::Established;
        }
    }

    /// Established becomes draining; any other state stays.
    pub fn set_draining(&mut self)
        ensures
            final(self)@ == draining_view(old(self)@),
    {
        if self.state == SessionState::Established {
            self.state = SessionState::Draining;
        }
    }

    /// The IDs of the streams, in order.
    fn stream_id_list(&self) -> (r: Vec<u64>)
        ensures
            r@ == stream_keys(self@.streams),
    {
        let mut ids: Vec<u64> = Vec::new();
        let mut i: usize = 0;
        while i < self.streams.len()
            invariant
                i <= self.streams.len(),
                ids@ == stream_keys(self@.streams).take(i as int),
                self@.streams == self.streams@.map_values(|e: (u64, Stream)| (e.0, e.1@)),
            decreases self.streams.len() - i,
        {
            ids.push(self.streams[i].0);
            i = i + 1;
            assert(ids@ =~= stream_keys(self@.streams).take(i as int));
        }
        assert(ids@ =~= stream_keys(self@.streams));
        ids
    }

    /// Closes the session with `error`; the first close records the
    /// session's streams as the ones to reset with WT_SESSION_GONE.
    pub fn close(&mut self, error: Option<Error>)
        ensures
            final(self)@ == closed_view(
                old(self)@,
                match error {
                    Some(e) => Some(e@),
                    None => None,
                },
            ),
    {
        if self.state != SessionState::Closed {
            self.pending_stream_resets = self.stream_id_list();
        }
        self.state = SessionState::Closed;
        self.close_error = error;
    }

    /// Why the session closed.
    pub fn close_error(&self) -> (r: Option<&Error>)
        ensures
            match r {
                Some(e) => self@.close_error == Some(e@),
                None => self@.close_error is None,
            },
    {
        match &self.close_error {
            Some(e) => Some(e),
            None => None,
        }
    }

    /// The position of stream `stream_id`.
    fn find_stream(&self, stream_id: u64) -> (r: Option<usize>)
        ensures
            match r {
                Some(i) => stream_index(self@.streams, stream_id) == i as int,
                None => stream_index(self@.streams, stream_id) == -1,
            },
    {
        let ghost s = self@.streams;
        let mut i: usize = 0;
        while i < self.streams.len()
            invariant
                i <= self.streams.len(),
                s == self.streams@.map_values(|e: (u64, Stream)| (e.0, e.1@)),
                forall|j: int| 0 <= j < i ==> s[j].0 != stream_id,
            decreases self.streams.len() - i,
        {
            if self.streams[i].0 == stream_id {
                proof {
                    lemma_stream_index(s, stream_id, i as int);
                }
                return Some(i);
            }
            i = i + 1;
        }
        proof {
            lemma_stream_index(s, stream_id, i as int);
        }
        None
    }

    /// Adds a stream; ignored once the session is closed.
    pub fn add_stream(&mut self, stream: Stream)
        ensures
            final(self)@ == (if old(self)@.state == SessionState::Closed {
                old(self)@
            } else {
                SessionView {
                    streams: streams_with(old(self)@.streams, stream@.stream_id, stream@),
                    ..old(self)@
                }
            }),
    {
        let _ = self.try_add_stream(stream);
    }

    /// Adds a stream under its ID, replacing one with the same ID; refused
    /// once the session is closed.
    pub fn try_add_stream(&mut self, stream: Stream) -> (r: bool)
        ensures
            r == (old(self)@.state != SessionState::Closed),
            final(self)@ == (if !r {
                old(self)@
            } else {
                SessionView {
                    streams: streams_with(old(self)@.streams, stream@.stream_id, stream@),
                    ..old(self)@
                }
            }),
    {
        if self.is_closed() {
            return false;
        }
        let id = stream.stream_id();
        match self.find_stream(id) {
            Some(i) => {
                self.streams.set(i, (id, stream));
            },
            None => {
                self.streams.push((id, stream));
            },
        }
        assert(self@.streams =~= streams_with(old(self)@.streams, id, stream@));
        true
    }

    /// The stream with ID `stream_id`.
    pub fn get_stream(&self, stream_id: u64) -> (r: Option<&Stream>)
        ensures
            match r {
                Some(s) => stream_index(self@.streams, stream_id) >= 0 && s@ == self@.streams[stream_index(
                    self@.streams,
                    stream_id,
                )].1,
                None => stream_index(self@.streams, stream_id) == -1,
            },
    {
        match self.find_stream(stream_id) {
            Some(i) => Some(&self.streams[i].1),
            None => None,
        }
    }

    /// The stream with ID `stream_id`, to change it.
    pub fn get_stream_mut(&mut self, stream_id: u64) -> (r: Option<&mut Stream>)
        ensures
            match r {
                Some(s) => {
                    let i = stream_index(old(self)@.streams, stream_id);
                    &&& i >= 0
                    &&& s@ == old(self)@.streams[i].1
                    &&& final(self)@.streams =~= old(self)@.streams.update(i, (stream_id, final(s)@))
                    &&& final(self)@ == (SessionView { streams: final(self)@.streams, ..old(self)@ })
                },
                None => stream_index(old(self)@.streams, stream_id) == -1 && final(self)@ == old(
                    self,
                )@,
            },
    {
        match self.find_stream(stream_id) {
            Some(i) => {
                let e = &mut self.streams[i];
                Some(&mut e.1)
            },
            None => None,
        }
    }

    /// Removes the stream with ID `stream_id`.
    pub fn remove_stream(&mut self, stream_id: u64) -> (r: Option<Stream>)
        ensures
            final(self)@ == (SessionView { streams: streams_without(old(self)@.streams, stream_id), ..old(self)@ }),
            match r {
                Some(s) => stream_index(old(self)@.streams, stream_id) >= 0 && s@ == old(self)@.streams[stream_index(
                    old(self)@.streams,
                    stream_id,
                )].1,
                None => stream_index(old(self)@.streams, stream_id) == -1,
            },
    {
        match self.find_stream(stream_id) {
            Some(i) => {
                let (_, s) = self.streams.remove(i);
                assert(self@.streams =~= streams_without(old(self)@.streams, stream_id));
                Some(s)
            },
            None => None,
        }
    }

    /// The number of streams.
    pub fn stream_count(&self) -> (r: usize)
        ensures
            r == self@.streams.len(),
    {
        self.streams.len()
    }

    /// The streams, in the order they were added.
    pub fn streams(&self) -> (r: Vec<&Stream>)
        ensures
            r@.len() == self@.streams.len(),
            forall|i: int| 0 <= i < r@.len() ==> r@[i]@ == #[trigger] self@.streams[i].1,
    {
        let mut out: Vec<&Stream> = Vec::new();
        let mut i: usize = 0;
        while i < self.streams.len()
            invariant
                i <= self.streams.len(),
                out@.len() == i,
                self@.streams == self.streams@.map_values(|e: (u64, Stream)| (e.0, e.1@)),
                forall|j: int| 0 <= j < i ==> out@[j]@ == #[trigger] self@.streams[j].1,
            decreases self.streams.len() - i,
        {
            out.push(&self.streams[i].1);
            i = i + 1;
        }
        out
    }

    /// The limits the peer set.
    pub fn remote_limits(&self) -> (r: &FlowControlLimits)
        ensures
            *r == self@.remote_limits,
    {
        &self.remote_limits
    }

    /// The limits the peer set, to change them.
    pub fn remote_limits_mut(&mut self) -> (r: &mut FlowControlLimits)
        ensures
            *r == old(self)@.remote_limits,
            final(self)@ == (SessionView { remote_limits: *final(r), ..old(self)@ }),
    {
        &mut self.remote_limits
    }

    /// The limits this side set.
    pub fn local_limits(&self) -> (r: &FlowControlLimits)
        ensures
            *r == self@.local_limits,
    {
        &self.local_limits
    }

    /// The limits this side set, to change them.
    pub fn local_limits_mut(&mut self) -> (r: &mut FlowControlLimits)
        ensures
            *r == old(self)@.local_limits,
            final(self)@ == (SessionView { local_limits: *final(r), ..old(self)@ }),
    {
        &mut self.local_limits
    }

    /// What has been used of the limits.
    pub fn flow_state(&self) -> (r: &FlowControlState)
        ensures
            *r == self@.flow_state,
    {
        &self.flow_state
    }

    /// What has been used of the limits, to change it.
    pub fn flow_state_mut(&mut self) -> (r: &mut FlowControlState)
        ensures
            *r == old(self)@.flow_state,
            final(self)@ == (SessionView { flow_state: *final(r), ..old(self)@ }),
    {
        &mut self.flow_state
    }

    /// Sets whether flow control is in force.
    pub fn set_flow_control_enabled(&mut self, enabled: bool)
        ensures
            final(self)@ == (SessionView { flow_control_enabled: enabled, ..old(self)@ }),
    {
        self.flow_control_enabled = enabled;
    }

    /// Whether flow control is in force.
    pub fn is_flow_control_enabled(&self) -> (r: bool)
        ensures
            r == self@.flow_control_enabled,
    {
        self.flow_control_enabled
    }

    /// Sets this side's limits and starts the windows on what the peer
    /// opens and sends from them; called once, before establishment, with
    /// the SETTINGS values.
    pub fn initialize_local_limits(&mut self, limits: FlowControlLimits)
        ensures
            final(self)@ == initialized_view(old(self)@, limits),
    {
        self.local_limits = limits;
        self.recv_stream_fc_uni = DirectionalStreamFlowControl::new(limits.max_streams_uni);
        self.recv_stream_fc_bidi = DirectionalStreamFlowControl::new(limits.max_streams_bidi);
        self.recv_data_fc = DataFlowControl::new(limits.max_data);
    }

    /// Sets this side's limits as [`Session::initialize_local_limits`]
    /// does and queues WT_MAX_STREAMS (bidirectional, then unidirectional)
    /// and WT_MAX_DATA for each nonzero limit, for peers that speak
    /// draft-07 SETTINGS but capsule flow control (draft-14 Section 5).
    pub fn queue_initial_flow_control_capsules(&mut self, limits: FlowControlLimits)
        ensures
            final(self)@ == (SessionView {
                local_limits: limits,
                recv_stream_fc_uni: stream_window_new(limits.max_streams_uni),
                recv_stream_fc_bidi: stream_window_new(limits.max_streams_bidi),
                recv_data_fc: data_window_new(limits.max_data),
                pending_capsules: old(self)@.pending_capsules + initial_capsules(limits),
                ..old(self)@
            }),
    {
        self.initialize_local_limits(limits);
        if limits.max_streams_bidi > 0 {
            self.pending_capsules.push(Capsule::MaxStreams { bidirectional: true, maximum: limits.max_streams_bidi });
        }
        if limits.max_streams_uni > 0 {
            self.pending_capsules.push(Capsule::MaxStreams { bidirectional: false, maximum: limits.max_streams_uni });
        }
        if limits.max_data > 0 {
            self.pending_capsules.push(Capsule::MaxData { maximum: limits.max_data });
        }
        assert(self@.pending_capsules =~= old(self)@.pending_capsules + initial_capsules(limits));
    }

    /// Whether a unidirectional stream can be opened now.
    pub fn can_create_unidirectional_stream(&self) -> (r: bool)
        ensures
            r == (is_active(self@.state) && self@.flow_state.streams_uni_opened
                < self@.remote_limits.max_streams_uni),
    {
        self.state.can_create_stream() && self.flow_state.streams_uni_opened < self.remote_limits.max_streams_uni
    }

    /// Whether a bidirectional stream can be opened now.
    pub fn can_create_bidirectional_stream(&self) -> (r: bool)
        ensures
            r == (is_active(self@.state) && self@.flow_state.streams_bidi_opened
                < self@.remote_limits.max_streams_bidi),
    {
        self.state.can_create_stream() && self.flow_state.streams_bidi_opened < self.remote_limits.max_streams_bidi
    }

    /// Whether `bytes` more fit in the peer's data limit now.
    pub fn can_send_data(&self, bytes: u64) -> (r: bool)
        ensures
            r == (is_active(self@.state) && sat_sub(self@.remote_limits.max_data, self@.flow_state.data_sent)
                >= bytes),
    {
        self.state.can_send() && self.remote_limits.max_data.saturating_sub(self.flow_state.data_sent) >= bytes
    }

    /// Opens a stream if the peer's limit allows it and counts it. Where
    /// the limit blocks, queues WT_STREAMS_BLOCKED once per limit (with
    /// flow control in force) and returns `false` (Section 5.6).
    pub fn try_open_stream(&mut self, bidirectional: bool) -> (r: bool)
        ensures
            (r, final(self)@) == open_outcome(old(self)@, bidirectional),
    {
        if !self.state.can_create_stream() {
            return false;
        }
        if bidirectional {
            let limit = self.remote_limits.max_streams_bidi;
            if self.flow_state.streams_bidi_opened < limit {
                self.flow_state.streams_bidi_opened = self.flow_state.streams_bidi_opened + 1;
                return true;
            }
            if self.flow_control_enabled && self.send_blocked.last_streams_blocked_bidi != Some(limit) {
                self.send_blocked.last_streams_blocked_bidi = Some(limit);
                self.pending_capsules.push(Capsule::StreamsBlocked { bidirectional, maximum: limit });
            }
        } else {
            let limit = self.remote_limits.max_streams_uni;
            if self.flow_state.streams_uni_opened < limit {
                self.flow_state.streams_uni_opened = self.flow_state.streams_uni_opened + 1;
                return true;
            }
            if self.flow_control_enabled && self.send_blocked.last_streams_blocked_uni != Some(limit) {
                self.send_blocked.last_streams_blocked_uni = Some(limit);
                self.pending_capsules.push(Capsule::StreamsBlocked { bidirectional, maximum: limit });
            }
        }
        assert(self@.pending_capsules =~= open_outcome(old(self)@, bidirectional).1.pending_capsules);
        false
    }

    /// Sends `bytes` if the peer's data limit allows it and counts them.
    /// Where the limit blocks, queues WT_DATA_BLOCKED once per limit (with
    /// flow control in force) and returns `false` (Section 5.6).
    pub fn try_send_data(&mut self, bytes: u64) -> (r: bool)
        ensures
            (r, final(self)@) == send_outcome(old(self)@, bytes),
    {
        if !self.state.can_send() {
            return false;
        }
        if self.remote_limits.max_data.saturating_sub(self.flow_state.data_sent) >= bytes {
            self.flow_state.data_sent = self.flow_state.data_sent.saturating_add(bytes);
            return true;
        }
        if self.flow_control_enabled {
            let limit = self.remote_limits.max_data;
            if self.send_blocked.last_data_blocked != Some(limit) {
                self.send_blocked.last_data_blocked = Some(limit);
                self.pending_capsules.push(Capsule::DataBlocked { maximum: limit });
            }
        }
        assert(self@.pending_capsules =~= send_outcome(old(self)@, bytes).1.pending_capsules);
        false
    }

    /// Whether `bytes` more from the peer stay within this side's data
    /// limit; `false` is a flow-control violation, which closes the session
    /// with WT_FLOW_CONTROL_ERROR (Section 5.4).
    pub fn check_received_data(&self, bytes: u64) -> (r: bool)
        ensures
            r == (!self@.flow_control_enabled || sat_sub(self@.recv_data_fc.advertised_max, self@.recv_data_fc.total_received)
                >= bytes),
    {
        if !self.flow_control_enabled {
            return true;
        }
        self.recv_data_fc.check_received(bytes)
    }

    /// Counts `bytes` received from the peer.
    pub fn add_received_data(&mut self, bytes: u64)
        ensures
            final(self)@ == (SessionView {
                flow_state: FlowControlState {
                    data_received: sat_add(old(self)@.flow_state.data_received, bytes),
                    ..old(self)@.flow_state
                },
                recv_data_fc: DataWindowView {
                    total_received: sat_add(old(self)@.recv_data_fc.total_received, bytes),
                    ..old(self)@.recv_data_fc
                },
                ..old(self)@
            }),
    {
        self.flow_state.data_received = self.flow_state.data_received.saturating_add(bytes);
        self.recv_data_fc.on_data_received(bytes);
    }

    /// Whether the peer may open another stream in this direction; `false`
    /// is a flow-control violation (Section 5.6.2).
    pub fn check_received_stream(&self, bidirectional: bool) -> (r: bool)
        ensures
            r == (!self@.flow_control_enabled || (if bidirectional {
                self@.recv_stream_fc_bidi.total_received < self@.recv_stream_fc_bidi.advertised_max
            } else {
                self@.recv_stream_fc_uni.total_received < self@.recv_stream_fc_uni.advertised_max
            })),
    {
        if !self.flow_control_enabled {
            return true;
        }
        if bidirectional {
            self.recv_stream_fc_bidi.check_received()
        } else {
            self.recv_stream_fc_uni.check_received()
        }
    }

    /// Counts a stream the peer opened.
    pub fn add_received_stream(&mut self, bidirectional: bool)
        ensures
            final(self)@ == (if bidirectional {
                SessionView {
                    flow_state: FlowControlState {
                        streams_bidi_received: sat_add(old(self)@.flow_state.streams_bidi_received, 1),
                        ..old(self)@.flow_state
                    },
                    recv_stream_fc_bidi: StreamWindowView {
                        total_received: sat_add(old(self)@.recv_stream_fc_bidi.total_received, 1),
                        ..old(self)@.recv_stream_fc_bidi
                    },
                    ..old(self)@
                }
            } else {
                SessionView {
                    flow_state: FlowControlState {
                        streams_uni_received: sat_add(old(self)@.flow_state.streams_uni_received, 1),
                        ..old(self)@.flow_state
                    },
                    recv_stream_fc_uni: StreamWindowView {
                        total_received: sat_add(old(self)@.recv_stream_fc_uni.total_received, 1),
                        ..old(self)@.recv_stream_fc_uni
                    },
                    ..old(self)@
                }
            }),
    {
        if bidirectional {
            self.flow_state.streams_bidi_received = self.flow_state.streams_bidi_received.saturating_add(1);
            self.recv_stream_fc_bidi.on_stream_received();
        } else {
            self.flow_state.streams_uni_received = self.flow_state.streams_uni_received.saturating_add(1);
            self.recv_stream_fc_uni.on_stream_received();
        }
    }

    /// Records that a stream the peer opened has fully closed; where the
    /// window moves, queues WT_MAX_STREAMS with the new limit and records
    /// it as this side's limit. Nothing happens without flow control or
    /// once the session is closed. This side's limits never go down.
    pub fn on_remote_stream_closed(&mut self, bidirectional: bool)
        ensures
            final(self)@ == remote_closed_outcome(old(self)@, bidirectional),
            final(self)@.local_limits.max_streams_uni >= old(self)@.local_limits.max_streams_uni
                || old(self)@.local_limits.max_streams_uni > old(self)@.recv_stream_fc_uni.advertised_max,
            final(self)@.local_limits.max_streams_bidi >= old(self)@.local_limits.max_streams_bidi
                || old(self)@.local_limits.max_streams_bidi > old(self)@.recv_stream_fc_bidi.advertised_max,
    {
        if !self.flow_control_enabled || self.is_closed() {
            return;
        }
        let raised = if bidirectional {
            self.recv_stream_fc_bidi.on_stream_closed()
        } else {
            self.recv_stream_fc_uni.on_stream_closed()
        };
        if let Some(new_max) = raised {
            self.pending_capsules.push(Capsule::MaxStreams { bidirectional, maximum: new_max });
            if bidirectional {
                self.local_limits.max_streams_bidi = new_max;
            } else {
                self.local_limits.max_streams_uni = new_max;
            }
        }
        assert(self@.pending_capsules =~= remote_closed_outcome(old(self)@, bidirectional).pending_capsules);
    }

    /// Records that the application consumed `bytes` of the peer's data;
    /// where the window moves, queues WT_MAX_DATA with the new limit and
    /// records it as this side's limit. Nothing happens without flow
    /// control or once the session is closed.
    pub fn on_data_consumed(&mut self, bytes: u64)
        ensures
            final(self)@ == consumed_outcome(old(self)@, bytes),
    {
        if !self.flow_control_enabled || self.is_closed() {
            return;
        }
        if let Some(new_max) = self.recv_data_fc.on_data_consumed(bytes) {
            self.pending_capsules.push(Capsule::MaxData { maximum: new_max });
            self.local_limits.max_data = new_max;
        }
        assert(self@.pending_capsules =~= consumed_outcome(old(self)@, bytes).pending_capsules);
    }

    /// Counts a datagram received.
    pub fn add_received_datagram(&mut self)
        ensures
            final(self)@ == (SessionView {
                flow_state: FlowControlState {
                    datagrams_received: sat_add(old(self)@.flow_state.datagrams_received, 1),
                    ..old(self)@.flow_state
                },
                ..old(self)@
            }),
    {
        self.flow_state.datagrams_received = self.flow_state.datagrams_received.saturating_add(1);
    }

    /// Queues a capsule to send; a closed session queues nothing.
    pub fn queue_capsule(&mut self, capsule: Capsule)
        ensures
            final(self)@ == queued_view(old(self)@, capsule@),
    {
        if self.is_closed() {
            return;
        }
        self.pending_capsules.push(capsule);
        assert(self@.pending_capsules =~= old(self)@.pending_capsules.push(capsule@));
    }

    /// The capsules waiting to be sent.
    pub fn pending_capsules(&self) -> (r: &[Capsule])
        ensures
            r@.map_values(|c: Capsule| c@) == self@.pending_capsules,
    {
        self.pending_capsules.as_slice()
    }

    /// Drops the capsules waiting to be sent.
    pub fn clear_pending_capsules(&mut self)
        ensures
            final(self)@ == (SessionView { pending_capsules: Seq::empty(), ..old(self)@ }),
    {
        self.pending_capsules.clear();
        assert(self@.pending_capsules =~= Seq::<CapsuleView>::empty());
    }

    /// Takes the capsules waiting to be sent.
    pub fn take_pending_capsules(&mut self) -> (r: Vec<Capsule>)
        ensures
            r@.map_values(|c: Capsule| c@) == old(self)@.pending_capsules,
            final(self)@ == (SessionView { pending_capsules: Seq::empty(), ..old(self)@ }),
    {
        let mut out: Vec<Capsule> = Vec::new();
        std::mem::swap(&mut out, &mut self.pending_capsules);
        assert(self@.pending_capsules =~= Seq::<CapsuleView>::empty());
        out
    }

    /// Closes the session from this side: queues WT_CLOSE_SESSION with
    /// `code` and `message` cut to 1024 bytes at a character boundary,
    /// records that it went out, and closes with the matching application
    /// error (Section 6). Nothing happens once the session is closed. The
    /// caller then sends FIN on the CONNECT stream.
    pub fn close_with_error(&mut self, code: u32, message: &str)
        ensures
            final(self)@ == (if old(self)@.state == SessionState::Closed {
                old(self)@
            } else {
                closed_view(
                    SessionView {
                        pending_capsules: old(self)@.pending_capsules.push(
                            CapsuleView::CloseSession {
                                error_code: code,
                                message: truncated_text(message@, 1024),
                            },
                        ),
                        close_session_sent: true,
                        ..old(self)@
                    },
                    Some(application_view(code, message@)),
                )
            }),
    {
        if self.is_closed() {
            return;
        }
        let capsule = Capsule::CloseSession { error_code: code, message: truncate_text(message, 1024) };
        let application_error = Error::application(code, message);
        self.queue_capsule(capsule);
        self.close_session_sent = true;
        self.close(Some(application_error));
    }

    /// Queues WT_DRAIN_SESSION and starts draining, when established.
    pub fn drain(&mut self)
        ensures
            final(self)@ == (if old(self)@.state == SessionState::Established {
                SessionView {
                    state: SessionState::Draining,
                    pending_capsules: old(self)@.pending_capsules.push(CapsuleView::DrainSession),
                    ..old(self)@
                }
            } else {
                old(self)@
            }),
    {
        if self.state == SessionState::Established {
            self.queue_capsule(Capsule::DrainSession);
            self.set_draining();
        }
    }

    /// Buffers a stream that arrived before establishment (Section 4.6);
    /// `false` when 100 are buffered already, and the caller then resets
    /// the stream with WT_BUFFERED_STREAM_REJECTED.
    pub fn buffer_incoming_stream(&mut self, stream_id: u64, is_bidirectional: bool) -> (r: bool)
        ensures
            r == (old(self)@.buffered_streams.len() < MAX_BUFFERED_STREAMS),
            final(self)@ == (if r {
                SessionView {
                    buffered_streams: old(self)@.buffered_streams.push(BufferedStream { stream_id, is_bidirectional }),
                    ..old(self)@
                }
            } else {
                old(self)@
            }),
    {
        if self.buffered_streams.len() >= MAX_BUFFERED_STREAMS {
            return false;
        }
        self.buffered_streams.push(BufferedStream { stream_id, is_bidirectional });
        true
    }

    /// Takes the buffered streams, once the session is established.
    pub fn take_buffered_streams(&mut self) -> (r: Vec<BufferedStream>)
        ensures
            r@ == old(self)@.buffered_streams,
            final(self)@ == (SessionView { buffered_streams: Seq::empty(), ..old(self)@ }),
    {
        let mut out: Vec<BufferedStream> = Vec::new();
        std::mem::swap(&mut out, &mut self.buffered_streams);
        assert(self@.buffered_streams =~= Seq::<BufferedStream>::empty());
        out
    }

    /// Buffers a datagram that arrived before establishment (Section 4.6);
    /// `false` when 100 are buffered already, and the datagram is dropped.
    pub fn buffer_datagram(&mut self, data: Vec<u8>) -> (r: bool)
        ensures
            r == (old(self)@.buffered_datagrams.len() < MAX_BUFFERED_DATAGRAMS),
            final(self)@ == (if r {
                SessionView { buffered_datagrams: old(self)@.buffered_datagrams.push(data@), ..old(self)@ }
            } else {
                old(self)@
            }),
    {
        if self.buffered_datagrams.len() >= MAX_BUFFERED_DATAGRAMS {
            return false;
        }
        self.buffered_datagrams.push(data);
        assert(self@.buffered_datagrams =~= old(self)@.buffered_datagrams.push(data@));
        true
    }

    /// Takes the buffered datagrams, once the session is established.
    pub fn take_buffered_datagrams(&mut self) -> (r: Vec<Vec<u8>>)
        ensures
            r@.map_values(|d: Vec<u8>| d@) == old(self)@.buffered_datagrams,
            final(self)@ == (SessionView { buffered_datagrams: Seq::empty(), ..old(self)@ }),
    {
        let mut out: Vec<Vec<u8>> = Vec::new();
        std::mem::swap(&mut out, &mut self.buffered_datagrams);
        assert(self@.buffered_datagrams =~= Seq::<Seq<u8>>::empty());
        out
    }

    /// Records an HTTP/3 GOAWAY: no new sessions, and an established
    /// session starts draining (Section 4.7).
    pub fn handle_goaway(&mut self)
        ensures
            final(self)@ == draining_view(SessionView { goaway_received: true, ..old(self)@ }),
    {
        self.goaway_received = true;
        self.set_draining();
    }

    /// Whether an HTTP/3 GOAWAY came in.
    pub fn is_goaway_received(&self) -> (r: bool)
        ensures
            r == self@.goaway_received,
    {
        self.goaway_received
    }

    /// Whether WT_CLOSE_SESSION came in.
    pub fn is_close_session_received(&self) -> (r: bool)
        ensures
            r == self@.close_session_received,
    {
        self.close_session_received
    }

    /// Whether WT_CLOSE_SESSION went out.
    pub fn is_close_session_sent(&self) -> (r: bool)
        ensures
            r == self@.close_session_sent,
    {
        self.close_session_sent
    }

    /// The IDs of the streams to reset with WT_SESSION_GONE when the
    /// session ends (Section 6).
    pub fn stream_ids_to_reset(&self) -> (r: Vec<u64>)
        ensures
            r@ == stream_keys(self@.streams),
    {
        self.stream_id_list()
    }

    /// Takes the IDs of the streams to reset since the session closed.
    pub fn take_pending_stream_resets(&mut self) -> (r: Vec<u64>)
        ensures
            r@ == old(self)@.pending_stream_resets,
            final(self)@ == (SessionView { pending_stream_resets: Seq::empty(), ..old(self)@ }),
    {
        let mut out: Vec<u64> = Vec::new();
        std::mem::swap(&mut out, &mut self.pending_stream_resets);
        out
    }

    /// The CONNECT stream ended without WT_CLOSE_SESSION: the same as a
    /// WT_CLOSE_SESSION with code 0 and no message (Section 6).
    pub fn on_connect_stream_closed(&mut self)
        ensures
            final(self)@ == (if old(self)@.close_session_received {
                old(self)@
            } else {
                closed_view(
                    SessionView { close_session_received: true, ..old(self)@ },
                    Some(application_view(0, Seq::empty())),
                )
            }),
    {
        if !self.close_session_received {
            self.close_session_received = true;
            proof {
                reveal_strlit("");
                assert(""@ =~= Seq::<char>::empty());
            }
            self.close(Some(Error::application(0, "")));
        }
    }

    /// Handles a received capsule. WT_MAX_STREAM_DATA and
    /// WT_STREAM_DATA_BLOCKED are session errors in HTTP/3 (Section 5.4);
    /// without flow control the flow-control capsules are ignored (Section
    /// 5.1); limits that do not increase, and stream limits above 2^60, end
    /// the session with WT_FLOW_CONTROL_ERROR; a new limit clears the
    /// record of the BLOCKED capsule sent for the old one.
    pub fn process_capsule(&mut self, capsule: &Capsule) -> (r: Result<(), CapsuleProcessError>)
        ensures
            match capsule_outcome(old(self)@, capsule@) {
                Ok(v) => r is Ok && final(self)@ == v,
                Err(e) => (r matches Err(CapsuleProcessError::Session(x)) && x@ == e) && final(self)@
                    == old(self)@,
            },
    {
        if capsule.is_prohibited_in_http3() {
            proof {
                reveal_strlit("prohibited capsule received");
                assert("prohibited capsule received"@ =~= prohibited_message());
            }
            return Err(CapsuleProcessError::Session(Error::application(0, "prohibited capsule received")));
        }
        if !self.flow_control_enabled && capsule.is_flow_control() {
            return Ok(());
        }
        match capsule {
            Capsule::CloseSession { error_code, message } => {
                self.close_session_received = true;
                self.close(Some(Error::application(*error_code, message.as_str())));
            },
            Capsule::DrainSession => {
                self.set_draining();
            },
            Capsule::MaxData { maximum } => {
                if *maximum <= self.remote_limits.max_data {
                    return Err(CapsuleProcessError::Session(Error::Protocol(ErrorCode::FlowControlError)));
                }
                self.remote_limits.max_data = *maximum;
                self.send_blocked.last_data_blocked = None;
            },
            Capsule::MaxStreams { bidirectional, maximum } => {
                if *maximum > MAX_STREAMS_LIMIT {
                    return Err(CapsuleProcessError::Session(Error::Protocol(ErrorCode::FlowControlError)));
                }
                if *bidirectional {
                    if *maximum <= self.remote_limits.max_streams_bidi {
                        return Err(CapsuleProcessError::Session(Error::Protocol(ErrorCode::FlowControlError)));
                    }
                    self.remote_limits.max_streams_bidi = *maximum;
                    self.send_blocked.last_streams_blocked_bidi = None;
                } else {
                    if *maximum <= self.remote_limits.max_streams_uni {
                        return Err(CapsuleProcessError::Session(Error::Protocol(ErrorCode::FlowControlError)));
                    }
                    self.remote_limits.max_streams_uni = *maximum;
                    self.send_blocked.last_streams_blocked_uni = None;
                }
            },
            Capsule::DataBlocked { .. } => {},
            Capsule::StreamsBlocked { maximum, .. } => {
                if *maximum > MAX_STREAMS_LIMIT {
                    return Err(CapsuleProcessError::Session(Error::Protocol(ErrorCode::FlowControlError)));
                }
            },
            Capsule::Unknown { .. } => {},
        }
        Ok(())
    }
}

/// The capsules that announce nonzero initial limits: WT_MAX_STREAMS for
/// bidirectional, then unidirectional streams, then WT_MAX_DATA.
pub open spec fn initial_capsules(l: FlowControlLimits) -> Seq<CapsuleView> {
    (if l.max_streams_bidi > 0 {
        seq![CapsuleView::MaxStreams { bidirectional: true, maximum: l.max_streams_bidi }]
    } else {
        Seq::empty()
    }) + (if l.max_streams_uni > 0 {
        seq![CapsuleView::MaxStreams { bidirectional: false, maximum: l.max_streams_uni }]
    } else {
        Seq::empty()
    }) + (if l.max_data > 0 {
        seq![CapsuleView::MaxData { maximum: l.max_data }]
    } else {
        Seq::empty()
    })
}

/// What `try_open_stream` returns and leaves.
pub open spec fn open_outcome(v: SessionView, bidirectional: bool) -> (bool, SessionView) {
    if !is_active(v.state) {
        (false, v)
    } else if bidirectional {
        let limit = v.remote_limits.max_streams_bidi;
        if v.flow_state.streams_bidi_opened < limit {
            (
                true,
                SessionView {
                    flow_state: FlowControlState {
                        streams_bidi_opened: (v.flow_state.streams_bidi_opened + 1) as u64,
                        ..v.flow_state
                    },
                    ..v
                },
            )
        } else if v.flow_control_enabled && v.send_blocked.last_streams_blocked_bidi != Some(limit) {
            (
                false,
                SessionView {
                    send_blocked: SendBlockedState { last_streams_blocked_bidi: Some(limit), ..v.send_blocked },
                    pending_capsules: v.pending_capsules.push(
                        CapsuleView::StreamsBlocked { bidirectional: true, maximum: limit },
                    ),
                    ..v
                },
            )
        } else {
            (false, v)
        }
    } else {
        let limit = v.remote_limits.max_streams_uni;
        if v.flow_state.streams_uni_opened < limit {
            (
                true,
                SessionView {
                    flow_state: FlowControlState {
                        streams_uni_opened: (v.flow_state.streams_uni_opened + 1) as u64,
                        ..v.flow_state
                    },
                    ..v
                },
            )
        } else if v.flow_control_enabled && v.send_blocked.last_streams_blocked_uni != Some(limit) {
            (
                false,
                SessionView {
                    send_blocked: SendBlockedState { last_streams_blocked_uni: Some(limit), ..v.send_blocked },
                    pending_capsules: v.pending_capsules.push(
                        CapsuleView::StreamsBlocked { bidirectional: false, maximum: limit },
                    ),
                    ..v
                },
            )
        } else {
            (false, v)
        }
    }
}

/// What `try_send_data` returns and leaves.
pub open spec fn send_outcome(v: SessionView, bytes: u64) -> (bool, SessionView) {
    if !is_active(v.state) {
        (false, v)
    } else if sat_sub(v.remote_limits.max_data, v.flow_state.data_sent) >= bytes {
        (
            true,
            SessionView {
                flow_state: FlowControlState { data_sent: sat_add(v.flow_state.data_sent, bytes), ..v.flow_state },
                ..v
            },
        )
    } else if v.flow_control_enabled && v.send_blocked.last_data_blocked != Some(v.remote_limits.max_data) {
        (
            false,
            SessionView {
                send_blocked: SendBlockedState { last_data_blocked: Some(v.remote_limits.max_data), ..v.send_blocked },
                pending_capsules: v.pending_capsules.push(CapsuleView::DataBlocked { maximum: v.remote_limits.max_data }),
                ..v
            },
        )
    } else {
        (false, v)
    }
}

/// What `on_remote_stream_closed` leaves.
pub open spec fn remote_closed_outcome(v: SessionView, bidirectional: bool) -> SessionView {
    if !v.flow_control_enabled || v.state == SessionState::Closed {
        v
    } else if bidirectional {
        let w = v.recv_stream_fc_bidi;
        let raised = stream_window_raise(w, sat_add(w.total_closed, 1));
        let v2 = SessionView { recv_stream_fc_bidi: stream_window_closed(w), ..v };
        match raised {
            Some(m) => SessionView {
                pending_capsules: v.pending_capsules.push(CapsuleView::MaxStreams { bidirectional: true, maximum: m }),
                local_limits: FlowControlLimits { max_streams_bidi: m, ..v.local_limits },
                ..v2
            },
            None => v2,
        }
    } else {
        let w = v.recv_stream_fc_uni;
        let raised = stream_window_raise(w, sat_add(w.total_closed, 1));
        let v2 = SessionView { recv_stream_fc_uni: stream_window_closed(w), ..v };
        match raised {
            Some(m) => SessionView {
                pending_capsules: v.pending_capsules.push(CapsuleView::MaxStreams { bidirectional: false, maximum: m }),
                local_limits: FlowControlLimits { max_streams_uni: m, ..v.local_limits },
                ..v2
            },
            None => v2,
        }
    }
}

/// What `on_data_consumed` leaves.
pub open spec fn consumed_outcome(v: SessionView, bytes: u64) -> SessionView {
    if !v.flow_control_enabled || v.state == SessionState::Closed {
        v
    } else {
        let w = v.recv_data_fc;
        let raised = data_window_raise(w, sat_add(w.total_consumed, bytes));
        let v2 = SessionView { recv_data_fc: data_window_consumed(w, bytes), ..v };
        match raised {
            Some(m) => SessionView {
                pending_capsules: v.pending_capsules.push(CapsuleView::MaxData { maximum: m }),
                local_limits: FlowControlLimits { max_data: m, ..v.local_limits },
                ..v2
            },
            None => v2,
        }
    }
}

/// A stream added under an ID is the one found under that ID.
pub proof fn lemma_stream_add_then_get(s: Seq<(u64, StreamView)>, id: u64, st: StreamView)
    ensures
        stream_index(streams_with(s, id, st), id) >= 0,
        streams_with(s, id, st)[stream_index(streams_with(s, id, st), id)].1 == st,
{
    let i = stream_index(s, id);
    let t = streams_with(s, id, st);
    if i >= 0 {
        assert(is_first_index(s, id, i)) by {
            assert(exists|k: int| is_first_index(s, id, k));
        }
        assert forall|j: int| 0 <= j < i implies t[j].0 != id by {
            assert(s[j].0 != id);
        }
        lemma_stream_index(t, id, i);
    } else {
        assert(!exists|k: int| is_first_index(s, id, k));
        assert forall|j: int| 0 <= j < s.len() implies t[j].0 != id by {
            if s[j].0 == id {
                lemma_first_exists(s, id, j);
            }
        }
        lemma_stream_index(t, id, s.len() as int);
    }
}

/// Where some position holds stream `id`, a first one does.
proof fn lemma_first_exists(s: Seq<(u64, StreamView)>, id: u64, j: int)
    requires
        0 <= j < s.len(),
        s[j].0 == id,
    ensures
        exists|k: int| is_first_index(s, id, k),
    decreases j,
{
    if exists|k: int| 0 <= k < j && s[k].0 == id {
        let k = choose|k: int| 0 <= k < j && s[k].0 == id;
        lemma_first_exists(s, id, k);
    } else {
        assert(is_first_index(s, id, j));
    }
}

/// Adding and removing streams keeps their IDs distinct, and a removed
/// stream is no longer found.
pub proof fn lemma_stream_ids_distinct(s: Seq<(u64, StreamView)>, id: u64, st: StreamView)
    requires
        stream_keys(s).no_duplicates(),
    ensures
        stream_keys(streams_with(s, id, st)).no_duplicates(),
        stream_keys(streams_without(s, id)).no_duplicates(),
        stream_index(streams_without(s, id), id) == -1,
{
    let i = stream_index(s, id);
    let t = streams_with(s, id, st);
    let u = streams_without(s, id);
    if i >= 0 {
        assert(is_first_index(s, id, i)) by {
            assert(exists|k: int| is_first_index(s, id, k));
        }
        assert(stream_keys(t) =~= stream_keys(s));
        assert forall|a: int, b: int| 0 <= a < b < u.len() implies stream_keys(u)[a] != stream_keys(u)[b] by {
            let a2 = if a < i { a } else { a + 1 };
            let b2 = if b < i { b } else { b + 1 };
            assert(stream_keys(s)[a2] != stream_keys(s)[b2]);
        }
        assert forall|j: int| 0 <= j < u.len() implies u[j].0 != id by {
            let j2 = if j < i { j } else { j + 1 };
            assert(stream_keys(s)[j2] != stream_keys(s)[i]);
        }
        lemma_stream_index(u, id, u.len() as int);
    } else {
        assert forall|j: int| 0 <= j < s.len() implies s[j].0 != id by {
            if s[j].0 == id {
                lemma_first_exists(s, id, j);
            }
        }
        assert forall|a: int, b: int| 0 <= a < b < t.len() implies stream_keys(t)[a] != stream_keys(t)[b] by {
            if b == s.len() {
                assert(s[a].0 != id);
            } else {
                assert(stream_keys(s)[a] != stream_keys(s)[b]);
            }
        }
        lemma_stream_index(u, id, u.len() as int);
    }
}

/// An accepted capsule never lowers a limit the peer set.
pub proof fn lemma_capsule_keeps_remote_limits(v: SessionView, c: CapsuleView)
    ensures
        capsule_outcome(v, c) matches Ok(w) ==> w.remote_limits.max_data >= v.remote_limits.max_data
            && w.remote_limits.max_streams_uni >= v.remote_limits.max_streams_uni
            && w.remote_limits.max_streams_bidi >= v.remote_limits.max_streams_bidi,
{
}

/// A stream opens only within the limit the peer set.
pub proof fn lemma_open_within_limit(v: SessionView, bidirectional: bool)
    ensures
        open_outcome(v, bidirectional).0 ==> (if bidirectional {
            open_outcome(v, bidirectional).1.flow_state.streams_bidi_opened <= v.remote_limits.max_streams_bidi
        } else {
            open_outcome(v, bidirectional).1.flow_state.streams_uni_opened <= v.remote_limits.max_streams_uni
        }),
{
}

/// WT_STREAMS_BLOCKED goes out once per limit: a second blocked attempt
/// under the same limit queues nothing.
pub proof fn lemma_streams_blocked_once(v: SessionView, bidirectional: bool)
    ensures
        !open_outcome(v, bidirectional).0 ==> open_outcome(open_outcome(v, bidirectional).1, bidirectional)
            == (false, open_outcome(v, bidirectional).1),
{
}

/// WT_DATA_BLOCKED goes out once per limit: a second blocked attempt under
/// the same limit queues nothing.
pub proof fn lemma_data_blocked_once(v: SessionView, bytes: u64)
    ensures
        !send_outcome(v, bytes).0 ==> send_outcome(send_outcome(v, bytes).1, bytes) == (
            false,
            send_outcome(v, bytes).1,
        ),
{
}

/// Once closed, a session stays closed: closing again keeps the streams to
/// reset, and nothing is queued.
pub proof fn lemma_closed_stays_closed(v: SessionView, e: Option<ErrorView>, c: CapsuleView)
    requires
        v.state == SessionState::Closed,
    ensures
        closed_view(v, e).pending_stream_resets == v.pending_stream_resets,
        queued_view(v, c) == v,
        draining_view(v) == v,
{
}

/// This side's stream limits are the ones its windows last announced, and
/// none is above 2^60.
pub open spec fn max_streams_tracked(v: SessionView) -> bool {
    &&& v.local_limits.max_streams_uni == v.recv_stream_fc_uni.advertised_max
    &&& v.local_limits.max_streams_bidi == v.recv_stream_fc_bidi.advertised_max
    &&& v.local_limits.max_streams_uni <= MAX_STREAMS_LIMIT
    &&& v.local_limits.max_streams_bidi <= MAX_STREAMS_LIMIT
}

/// The state `initialize_local_limits(limits)` leaves.
pub open spec fn initialized_view(v: SessionView, limits: FlowControlLimits) -> SessionView {
    SessionView {
        local_limits: limits,
        recv_stream_fc_uni: stream_window_new(limits.max_streams_uni),
        recv_stream_fc_bidi: stream_window_new(limits.max_streams_bidi),
        recv_data_fc: data_window_new(limits.max_data),
        ..v
    }
}

/// Setting stream limits of at most 2^60 starts the stream limits off as
/// the windows' announced limits.
pub proof fn lemma_initialized_limits_tracked(v: SessionView, limits: FlowControlLimits)
    requires
        limits.max_streams_uni <= MAX_STREAMS_LIMIT,
        limits.max_streams_bidi <= MAX_STREAMS_LIMIT,
    ensures
        max_streams_tracked(initialized_view(v, limits)),
{
}

/// Across closes of the peer's streams, this side's stream limit in the
/// closed stream's direction stays the window's announced limit, never
/// falls and never passes 2^60; the other direction is untouched. Where
/// it rises, exactly one WT_MAX_STREAMS for that direction carrying the
/// new, larger limit is queued; otherwise nothing is queued. Without flow
/// control, or once the session is closed, nothing changes at all.
pub proof fn lemma_remote_close_advertises(v: SessionView, bidirectional: bool)
    requires
        max_streams_tracked(v),
    ensures
        ({
            let w = remote_closed_outcome(v, bidirectional);
            let (m0, m1) = if bidirectional {
                (v.local_limits.max_streams_bidi, w.local_limits.max_streams_bidi)
            } else {
                (v.local_limits.max_streams_uni, w.local_limits.max_streams_uni)
            };
            &&& max_streams_tracked(w)
            &&& m0 <= m1 <= MAX_STREAMS_LIMIT
            &&& bidirectional ==> w.local_limits.max_streams_uni == v.local_limits.max_streams_uni
            &&& !bidirectional ==> w.local_limits.max_streams_bidi == v.local_limits.max_streams_bidi
            &&& w.local_limits.max_data == v.local_limits.max_data
            &&& m1 == m0 ==> w.pending_capsules == v.pending_capsules
            &&& m1 > m0 ==> w.pending_capsules == v.pending_capsules.push(
                CapsuleView::MaxStreams { bidirectional, maximum: m1 },
            )
            &&& (!v.flow_control_enabled || v.state == SessionState::Closed) ==> w == v
        }),
{
}

/// WT_MAX_DATA must raise the peer's limit (draft-ietf-webtrans-http3
/// Section 5.6.4): with flow control on, one that does not increase it is a
/// flow-control error, and one that does becomes the new limit, leaving the
/// stream limits as they were.
pub proof fn lemma_max_data_capsule(v: SessionView, maximum: u64)
    requires
        v.flow_control_enabled,
    ensures
        capsule_outcome(v, CapsuleView::MaxData { maximum }) is Err <==> maximum <= v.remote_limits.max_data,
        capsule_outcome(v, CapsuleView::MaxData { maximum }) matches Ok(w) ==> w.remote_limits.max_data == maximum
            && w.remote_limits.max_streams_uni == v.remote_limits.max_streams_uni
            && w.remote_limits.max_streams_bidi == v.remote_limits.max_streams_bidi,
{
}

/// WT_MAX_STREAMS must raise the peer's limit in its direction and stay
/// within 2^60: with flow control on, any other value is a flow-control
/// error, and an accepted one becomes the new limit in that direction
/// only.
pub proof fn lemma_max_streams_capsule(v: SessionView, bidirectional: bool, maximum: u64)
    requires
        v.flow_control_enabled,
    ensures
        capsule_outcome(v, CapsuleView::MaxStreams { bidirectional, maximum }) is Err <==> (maximum > MAX_STREAMS_LIMIT
            || maximum <= (if bidirectional {
            v.remote_limits.max_streams_bidi
        } else {
            v.remote_limits.max_streams_uni
        })),
        capsule_outcome(v, CapsuleView::MaxStreams { bidirectional, maximum }) matches Ok(w) ==> w.remote_limits.max_data
            == v.remote_limits.max_data && (if bidirectional {
            w.remote_limits.max_streams_bidi == maximum && w.remote_limits.max_streams_uni
                == v.remote_limits.max_streams_uni
        } else {
            w.remote_limits.max_streams_uni == maximum && w.remote_limits.max_streams_bidi
                == v.remote_limits.max_streams_bidi
        }),
{
}

/// Sending data succeeds exactly while the session is active and the bytes
/// fit under the peer's data limit (an empty send always fits), and then
/// counts exactly those bytes as sent.
pub proof fn lemma_send_fits_limit(v: SessionView, bytes: u64)
    ensures
        send_outcome(v, bytes).0 <==> is_active(v.state) && (bytes == 0 || v.flow_state.data_sent + bytes
            <= v.remote_limits.max_data),
        send_outcome(v, bytes).0 ==> send_outcome(v, bytes).1.flow_state.data_sent == v.flow_state.data_sent + bytes,
{
}

/// Opening a stream succeeds exactly while the session is active and fewer
/// streams of that direction were opened than the peer allows, and then
/// counts one more.
pub proof fn lemma_open_fits_limit(v: SessionView, bidirectional: bool)
    ensures
        open_outcome(v, bidirectional).0 <==> is_active(v.state) && (if bidirectional {
            v.flow_state.streams_bidi_opened < v.remote_limits.max_streams_bidi
        } else {
            v.flow_state.streams_uni_opened < v.remote_limits.max_streams_uni
        }),
        open_outcome(v, bidirectional).0 ==> (if bidirectional {
            open_outcome(v, bidirectional).1.flow_state.streams_bidi_opened == v.flow_state.streams_bidi_opened + 1
        } else {
            open_outcome(v, bidirectional).1.flow_state.streams_uni_opened == v.flow_state.streams_uni_opened + 1
        }),
{
}

} // verus!
