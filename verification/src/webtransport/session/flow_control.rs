//! Session-level flow control (draft-ietf-webtrans-http3-15 Section 5):
//! the limits each side sets, what has been used of them, and the windows
//! that decide when to raise the limits the peer sees.
//!
//! Limits are raised as data is consumed and streams close, never in
//! answer to WT_DATA_BLOCKED or WT_STREAMS_BLOCKED (Section 5.6).

use vstd::prelude::*;
use crate::webtransport::capsule::MAX_STREAMS_LIMIT;

verus! {

/// `a + b`, or `u64::MAX` where that overflows.
pub open spec fn sat_add(a: u64, b: u64) -> u64 {
    if a + b > u64::MAX {
        u64::MAX
    } else {
        (a + b) as u64
    }
}

/// `a - b`, or 0 where that would be negative.
pub open spec fn sat_sub(a: u64, b: u64) -> u64 {
    if a < b {
        0
    } else {
        (a - b) as u64
    }
}

/// The flow-control limits one side has set.
#[derive(Debug, Clone, Copy)]
pub struct FlowControlLimits {
    /// The most unidirectional streams.
    pub max_streams_uni: u64,
    /// The most bidirectional streams.
    pub max_streams_bidi: u64,
    /// The most bytes of stream data.
    pub max_data: u64,
}

impl FlowControlLimits {
    /// All limits zero.
    pub open spec fn zero() -> FlowControlLimits {
        FlowControlLimits { max_streams_uni: 0, max_streams_bidi: 0, max_data: 0 }
    }

    /// All limits zero.
    pub fn new() -> (r: FlowControlLimits)
        ensures
            r == Self::zero(),
    {
        FlowControlLimits { max_streams_uni: 0, max_streams_bidi: 0, max_data: 0 }
    }
}

impl Default for FlowControlLimits {
    fn default() -> (r: FlowControlLimits)
        ensures
            r == FlowControlLimits::zero(),
    {
        FlowControlLimits::new()
    }
}

/// What a session has used of the limits, in both directions.
#[derive(Debug, Clone, Copy)]
pub struct FlowControlState {
    /// Unidirectional streams opened.
    pub streams_uni_opened: u64,
    /// Bidirectional streams opened.
    pub streams_bidi_opened: u64,
    /// Bytes of stream body sent on all the session's streams; capsules,
    /// signal values, stream types and session IDs do not count (Section 5.4).
    pub data_sent: u64,
    /// Unidirectional streams received.
    pub streams_uni_received: u64,
    /// Bidirectional streams received.
    pub streams_bidi_received: u64,
    /// Bytes of stream body received, counted as `data_sent` is.
    pub data_received: u64,
    /// Datagrams received.
    pub datagrams_received: u64,
}

impl FlowControlState {
    /// All counters zero.
    pub open spec fn zero() -> FlowControlState {
        FlowControlState {
            streams_uni_opened: 0,
            streams_bidi_opened: 0,
            data_sent: 0,
            streams_uni_received: 0,
            streams_bidi_received: 0,
            data_received: 0,
            datagrams_received: 0,
        }
    }

    /// All counters zero.
    pub fn new() -> (r: FlowControlState)
        ensures
            r == Self::zero(),
    {
        FlowControlState {
            streams_uni_opened: 0,
            streams_bidi_opened: 0,
            data_sent: 0,
            streams_uni_received: 0,
            streams_bidi_received: 0,
            data_received: 0,
            datagrams_received: 0,
        }
    }
}

impl Default for FlowControlState {
    fn default() -> (r: FlowControlState)
        ensures
            r == FlowControlState::zero(),
    {
        FlowControlState::new()
    }
}

/// The state of a stream window.
pub struct StreamWindowView {
    /// How many streams the peer may have open at once.
    pub concurrent_limit: u64,
    /// The cumulative limit last announced; it never goes down.
    pub advertised_max: u64,
    /// Streams the peer opened that have fully closed.
    pub total_closed: u64,
    /// Streams the peer opened.
    pub total_received: u64,
}

/// The window on the streams the peer opens in one direction, in the
/// manner of RFC 9000 Section 4.6: closing streams raises the limit.
#[derive(Debug, Clone)]
pub struct DirectionalStreamFlowControl {
    concurrent_limit: u64,
    advertised_max: u64,
    total_closed: u64,
    total_received: u64,
}

impl View for DirectionalStreamFlowControl {
    type V = StreamWindowView;

    closed spec fn view(&self) -> StreamWindowView {
        StreamWindowView {
            concurrent_limit: self.concurrent_limit,
            advertised_max: self.advertised_max,
            total_closed: self.total_closed,
            total_received: self.total_received,
        }
    }
}

/// A fresh stream window: the concurrent limit is the first announced limit.
pub open spec fn stream_window_new(concurrent_limit: u64) -> StreamWindowView {
    StreamWindowView {
        concurrent_limit,
        advertised_max: concurrent_limit,
        total_closed: 0,
        total_received: 0,
    }
}

/// The limit a window announces after one more stream closed, if it
/// announces one: once at most half the concurrent limit is left, the
/// closed count plus the concurrent limit, capped at 2^60, where that is
/// above the last announcement.
pub open spec fn stream_window_raise(w: StreamWindowView, closed: u64) -> Option<u64> {
    if w.concurrent_limit == 0 {
        None
    } else if sat_sub(w.advertised_max, w.total_received) <= w.concurrent_limit / 2 {
        let m = sat_add(closed, w.concurrent_limit);
        let new_max = if m < MAX_STREAMS_LIMIT { m } else { MAX_STREAMS_LIMIT };
        if new_max > w.advertised_max {
            Some(new_max)
        } else {
            None
        }
    } else {
        None
    }
}

/// A window after one more stream closed.
pub open spec fn stream_window_closed(w: StreamWindowView) -> StreamWindowView {
    let closed = sat_add(w.total_closed, 1);
    match stream_window_raise(w, closed) {
        Some(m) => StreamWindowView { total_closed: closed, advertised_max: m, ..w },
        None => StreamWindowView { total_closed: closed, ..w },
    }
}

impl DirectionalStreamFlowControl {
    /// A window for `concurrent_limit` streams at once.
    pub fn new(concurrent_limit: u64) -> (r: DirectionalStreamFlowControl)
        ensures
            r@ == stream_window_new(concurrent_limit),
    {
        DirectionalStreamFlowControl {
            concurrent_limit,
            advertised_max: concurrent_limit,
            total_closed: 0,
            total_received: 0,
        }
    }

    /// Whether the peer may open another stream.
    pub fn check_received(&self) -> (r: bool)
        ensures
            r == (self@.total_received < self@.advertised_max),
    {
        self.total_received < self.advertised_max
    }

    /// Records that the peer opened a stream.
    pub fn on_stream_received(&mut self)
        ensures
            final(self)@ == (StreamWindowView {
                total_received: sat_add(old(self)@.total_received, 1),
                ..old(self)@
            }),
    {
        self.total_received = self.total_received.saturating_add(1);
    }

    /// Records that a stream the peer opened has fully closed; returns the
    /// new limit to announce in WT_MAX_STREAMS, if the window moved. The
    /// announced limit never goes down.
    pub fn on_stream_closed(&mut self) -> (r: Option<u64>)
        ensures
            final(self)@ == stream_window_closed(old(self)@),
            r == stream_window_raise(old(self)@, sat_add(old(self)@.total_closed, 1)),
            final(self)@.advertised_max >= old(self)@.advertised_max,
            r matches Some(m) ==> m > old(self)@.advertised_max && m <= MAX_STREAMS_LIMIT
                && m == final(self)@.advertised_max,
    {
        self.total_closed = self.total_closed.saturating_add(1);
        if self.concurrent_limit == 0 {
            return None;
        }
        let remaining = self.advertised_max.saturating_sub(self.total_received);
        let threshold = self.concurrent_limit / 2;
        if remaining <= threshold {
            let m = self.total_closed.saturating_add(self.concurrent_limit);
            let new_max = if m < MAX_STREAMS_LIMIT {
                m
            } else {
                MAX_STREAMS_LIMIT
            };
            if new_max > self.advertised_max {
                self.advertised_max = new_max;
                return Some(new_max);
            }
        }
        None
    }
}

/// The state of a data window.
pub struct DataWindowView {
    /// The first window; half of it is the threshold.
    pub initial_window: u64,
    /// The cumulative limit last announced; it never goes down.
    pub advertised_max: u64,
    /// Bytes the application has consumed.
    pub total_consumed: u64,
    /// Bytes the peer has sent.
    pub total_received: u64,
}

/// The window on the data the peer sends, in the manner of RFC 9000
/// Section 4.2: consuming data raises the limit.
#[derive(Debug, Clone)]
pub struct DataFlowControl {
    initial_window: u64,
    advertised_max: u64,
    total_consumed: u64,
    total_received: u64,
}

impl View for DataFlowControl {
    type V = DataWindowView;

    closed spec fn view(&self) -> DataWindowView {
        DataWindowView {
            initial_window: self.initial_window,
            advertised_max: self.advertised_max,
            total_consumed: self.total_consumed,
            total_received: self.total_received,
        }
    }
}

/// A fresh data window.
pub open spec fn data_window_new(initial_window: u64) -> DataWindowView {
    DataWindowView { initial_window, advertised_max: initial_window, total_consumed: 0, total_received: 0 }
}

/// The limit a data window announces once `consumed` bytes are consumed,
/// if it announces one: once at most half the initial window is left, the
/// consumed bytes plus the initial window, where that is above the last
/// announcement.
pub open spec fn data_window_raise(w: DataWindowView, consumed: u64) -> Option<u64> {
    if w.initial_window == 0 {
        None
    } else if sat_sub(w.advertised_max, w.total_received) <= w.initial_window / 2 {
        let new_max = sat_add(consumed, w.initial_window);
        if new_max > w.advertised_max {
            Some(new_max)
        } else {
            None
        }
    } else {
        None
    }
}

/// A data window after `bytes` more were consumed.
pub open spec fn data_window_consumed(w: DataWindowView, bytes: u64) -> DataWindowView {
    let consumed = sat_add(w.total_consumed, bytes);
    match data_window_raise(w, consumed) {
        Some(m) => DataWindowView { total_consumed: consumed, advertised_max: m, ..w },
        None => DataWindowView { total_consumed: consumed, ..w },
    }
}

impl DataFlowControl {
    /// A window of `initial_window` bytes.
    pub fn new(initial_window: u64) -> (r: DataFlowControl)
        ensures
            r@ == data_window_new(initial_window),
    {
        DataFlowControl { initial_window, advertised_max: initial_window, total_consumed: 0, total_received: 0 }
    }

    /// Whether `bytes` more from the peer fit in the window.
    pub fn check_received(&self, bytes: u64) -> (r: bool)
        ensures
            r == (sat_sub(self@.advertised_max, self@.total_received) >= bytes),
    {
        self.advertised_max.saturating_sub(self.total_received) >= bytes
    }

    /// Records `bytes` received from the peer.
    pub fn on_data_received(&mut self, bytes: u64)
        ensures
            final(self)@ == (DataWindowView {
                total_received: sat_add(old(self)@.total_received, bytes),
                ..old(self)@
            }),
    {
        self.total_received = self.total_received.saturating_add(bytes);
    }

    /// Records that the application consumed `bytes`; returns the new limit
    /// to announce in WT_MAX_DATA, if the window moved. The announced limit
    /// never goes down.
    pub fn on_data_consumed(&mut self, bytes: u64) -> (r: Option<u64>)
        ensures
            final(self)@ == data_window_consumed(old(self)@, bytes),
            r == data_window_raise(old(self)@, sat_add(old(self)@.total_consumed, bytes)),
            final(self)@.advertised_max >= old(self)@.advertised_max,
            r matches Some(m) ==> m > old(self)@.advertised_max && m == final(self)@.advertised_max,
    {
        self.total_consumed = self.total_consumed.saturating_add(bytes);
        if self.initial_window == 0 {
            return None;
        }
        let remaining = self.advertised_max.saturating_sub(self.total_received);
        let threshold = self.initial_window / 2;
        if remaining <= threshold {
            let new_max = self.total_consumed.saturating_add(self.initial_window);
            if new_max > self.advertised_max {
                self.advertised_max = new_max;
                return Some(new_max);
            }
        }
        None
    }
}

/// The limits for which a BLOCKED capsule went out last, so that each
/// limit is reported once (Section 5.6).
#[derive(Debug, Clone)]
pub struct SendBlockedState {
    /// The limit of the last WT_STREAMS_BLOCKED for unidirectional streams.
    pub last_streams_blocked_uni: Option<u64>,
    /// The limit of the last WT_STREAMS_BLOCKED for bidirectional streams.
    pub last_streams_blocked_bidi: Option<u64>,
    /// The limit of the last WT_DATA_BLOCKED.
    pub last_data_blocked: Option<u64>,
}

impl SendBlockedState {
    /// Nothing reported yet.
    pub open spec fn none() -> SendBlockedState {
        SendBlockedState { last_streams_blocked_uni: None, last_streams_blocked_bidi: None, last_data_blocked: None }
    }
}

impl Default for SendBlockedState {
    fn default() -> (r: SendBlockedState)
        ensures
            r == SendBlockedState::none(),
    {
        SendBlockedState { last_streams_blocked_uni: None, last_streams_blocked_bidi: None, last_data_blocked: None }
    }
}

/// Consuming data moves the window by the total consumed: after `bytes`
/// more are consumed, the total is the old total plus `bytes` (saturating);
/// any limit announced is that total plus the initial window (saturating),
/// above the last announcement, and becomes the announced limit. Once at
/// most half the window is left, a consume that takes the total plus the
/// window past the last announcement announces it; otherwise the limit
/// stays where it was (a limit already at the 64-bit maximum cannot rise).
pub proof fn lemma_data_window_announces_total(w: DataWindowView, bytes: u64)
    ensures
        ({
            let total = sat_add(w.total_consumed, bytes);
            let r = data_window_raise(w, total);
            let w2 = data_window_consumed(w, bytes);
            &&& w2.total_consumed == w.total_consumed + bytes || (w2.total_consumed == u64::MAX
                && w.total_consumed + bytes > u64::MAX)
            &&& r matches Some(m) ==> m == w2.advertised_max && m > w.advertised_max && (m == w2.total_consumed
                + w.initial_window || (m == u64::MAX && w2.total_consumed + w.initial_window > u64::MAX))
            &&& r is None ==> w2.advertised_max == w.advertised_max
            &&& (w.initial_window > 0 && (w.advertised_max <= w.total_received || w.advertised_max - w.total_received
                <= w.initial_window / 2) && w.advertised_max < u64::MAX && w2.total_consumed + w.initial_window
                > w.advertised_max) ==> r is Some
            &&& w2.initial_window == w.initial_window && w2.total_received == w.total_received
        }),
{
}

/// Closing streams moves the stream window by the total closed: any limit
/// announced after one more stream closed is the closed total plus the
/// concurrent limit, capped at 2^60, in the manner of RFC 9000 Section 4.6;
/// it is above the last announcement and becomes the announced limit.
/// Once at most half the window is left, a close that takes the total plus
/// the window past the last announcement announces a limit, unless that
/// is already 2^60; otherwise the limit stays where it was.
pub proof fn lemma_stream_window_announces_total(w: StreamWindowView)
    ensures
        ({
            let closed = sat_add(w.total_closed, 1);
            let r = stream_window_raise(w, closed);
            let w2 = stream_window_closed(w);
            &&& w2.total_closed == closed
            &&& r matches Some(m) ==> m == w2.advertised_max && m > w.advertised_max && m <= MAX_STREAMS_LIMIT && (m
                == MAX_STREAMS_LIMIT || m == w2.total_closed + w.concurrent_limit)
            &&& r is None ==> w2.advertised_max == w.advertised_max
            &&& (w.concurrent_limit > 0 && (w.advertised_max <= w.total_received || w.advertised_max
                - w.total_received <= w.concurrent_limit / 2) && w.advertised_max < MAX_STREAMS_LIMIT
                && w2.total_closed + w.concurrent_limit > w.advertised_max) ==> r is Some
        }),
{
}

} // verus!
