//! Errors of the CONNECT exchange and the check of the transport features a
//! WebTransport session needs.

use vstd::prelude::*;
use crate::text::{push_str, string_from_chars};

verus! {

/// Why a CONNECT request is refused (draft-ietf-webtrans-http3-15 Section 3.2).
#[derive(Debug, Clone, Copy, PartialEq, Eq, Structural)]
pub enum ConnectError {
    /// `:scheme` is not `https`.
    InvalidScheme,
    /// `:authority` is missing.
    MissingAuthority,
    /// `:path` is missing.
    MissingPath,
    /// `:method` is not `CONNECT`.
    InvalidMethod,
    /// `:protocol` is neither `webtransport-h3` nor `webtransport`.
    InvalidProtocol,
    /// A header value is not UTF-8, or the pseudo-headers are out of order
    /// or repeated.
    InvalidEncoding,
}

/// A transport feature a WebTransport session needs and did not get
/// (draft-ietf-webtrans-http3-15 Section 3.1).
#[derive(Debug, Clone, Copy, PartialEq, Eq, Structural)]
pub enum CapabilityError {
    /// SETTINGS_WT_ENABLED = 1 is missing.
    MissingWebTransportSetting,
    /// SETTINGS_ENABLE_CONNECT_PROTOCOL = 1 is missing.
    MissingEnableConnectProtocol,
    /// SETTINGS_H3_DATAGRAM = 1 is missing.
    MissingH3Datagram,
    /// A max_datagram_frame_size above 0 is missing.
    MissingQuicDatagram,
    /// The reset_stream_at transport parameter is missing.
    MissingResetStreamAt,
}

/// The transport features negotiated, as the caller read them from
/// SETTINGS and transport parameters.
#[derive(Debug, Clone, Copy, PartialEq, Eq, Structural)]
pub struct TransportCapabilities {
    /// SETTINGS_WT_ENABLED is 1.
    pub wt_enabled: bool,
    /// SETTINGS_ENABLE_CONNECT_PROTOCOL is 1.
    pub enable_connect_protocol: bool,
    /// SETTINGS_H3_DATAGRAM is 1.
    pub h3_datagram: bool,
    /// max_datagram_frame_size is above 0.
    pub max_datagram_frame_size: bool,
    /// reset_stream_at is present.
    pub reset_stream_at: bool,
}

/// The first missing feature, in the order the draft lists them.
pub open spec fn capabilities_check(c: TransportCapabilities) -> Result<(), CapabilityError> {
    if !c.wt_enabled {
        Err(CapabilityError::MissingWebTransportSetting)
    } else if !c.enable_connect_protocol {
        Err(CapabilityError::MissingEnableConnectProtocol)
    } else if !c.h3_datagram {
        Err(CapabilityError::MissingH3Datagram)
    } else if !c.max_datagram_frame_size {
        Err(CapabilityError::MissingQuicDatagram)
    } else if !c.reset_stream_at {
        Err(CapabilityError::MissingResetStreamAt)
    } else {
        Ok(())
    }
}

impl TransportCapabilities {
    /// No feature negotiated.
    pub fn new() -> (r: TransportCapabilities)
        ensures
            !r.wt_enabled && !r.enable_connect_protocol && !r.h3_datagram
                && !r.max_datagram_frame_size && !r.reset_stream_at,
    {
        TransportCapabilities {
            wt_enabled: false,
            enable_connect_protocol: false,
            h3_datagram: false,
            max_datagram_frame_size: false,
            reset_stream_at: false,
        }
    }

    /// Checks that every feature a session needs is there.
    pub fn validate(&self) -> (r: Result<(), CapabilityError>)
        ensures
            r == capabilities_check(*self),
    {
        if !self.wt_enabled {
            return Err(CapabilityError::MissingWebTransportSetting);
        }
        if !self.enable_connect_protocol {
            return Err(CapabilityError::MissingEnableConnectProtocol);
        }
        if !self.h3_datagram {
            return Err(CapabilityError::MissingH3Datagram);
        }
        if !self.max_datagram_frame_size {
            return Err(CapabilityError::MissingQuicDatagram);
        }
        if !self.reset_stream_at {
            return Err(CapabilityError::MissingResetStreamAt);
        }
        Ok(())
    }
}

impl Default for TransportCapabilities {
    fn default() -> (r: TransportCapabilities)
        ensures
            !r.wt_enabled && !r.enable_connect_protocol && !r.h3_datagram
                && !r.max_datagram_frame_size && !r.reset_stream_at,
    {
        TransportCapabilities::new()
    }
}

/// The message of a CONNECT validation error.
pub open spec fn connect_error_message(e: ConnectError) -> Seq<char> {
    match e {
        ConnectError::InvalidScheme => ":scheme must be \"https\""@,
        ConnectError::MissingAuthority => ":authority is required"@,
        ConnectError::MissingPath => ":path is required"@,
        ConnectError::InvalidMethod => ":method must be \"CONNECT\""@,
        ConnectError::InvalidProtocol => ":protocol must be \"webtransport-h3\" or \"webtransport\""@,
        ConnectError::InvalidEncoding => "header value is not valid UTF-8"@,
    }
}

impl ConnectError {
    /// The message of this error.
    pub fn to_string(&self) -> (r: String)
        ensures
            r@ == connect_error_message(*self),
    {
        let mut v: Vec<char> = Vec::new();
        match self {
            ConnectError::InvalidScheme => push_str(&mut v, ":scheme must be \"https\""),
            ConnectError::MissingAuthority => push_str(&mut v, ":authority is required"),
            ConnectError::MissingPath => push_str(&mut v, ":path is required"),
            ConnectError::InvalidMethod => push_str(&mut v, ":method must be \"CONNECT\""),
            ConnectError::InvalidProtocol => push_str(&mut v, ":protocol must be \"webtransport-h3\" or \"webtransport\""),
            ConnectError::InvalidEncoding => push_str(&mut v, "header value is not valid UTF-8"),
        }
        assert(v@ =~= connect_error_message(*self));
        string_from_chars(v.as_slice())
    }
}

/// The message of a capability error.
pub open spec fn capability_error_message(e: CapabilityError) -> Seq<char> {
    match e {
        CapabilityError::MissingWebTransportSetting => "SETTINGS_WT_ENABLED with value of 1 is required"@,
        CapabilityError::MissingEnableConnectProtocol => "SETTINGS_ENABLE_CONNECT_PROTOCOL with value 1 is required"@,
        CapabilityError::MissingH3Datagram => "SETTINGS_H3_DATAGRAM with value 1 is required"@,
        CapabilityError::MissingQuicDatagram => "max_datagram_frame_size transport parameter > 0 is required"@,
        CapabilityError::MissingResetStreamAt => "reset_stream_at transport parameter is required"@,
    }
}

impl CapabilityError {
    /// The message of this error.
    pub fn to_string(&self) -> (r: String)
        ensures
            r@ == capability_error_message(*self),
    {
        let mut v: Vec<char> = Vec::new();
        match self {
            CapabilityError::MissingWebTransportSetting => push_str(&mut v, "SETTINGS_WT_ENABLED with value of 1 is required"),
            CapabilityError::MissingEnableConnectProtocol => push_str(&mut v, "SETTINGS_ENABLE_CONNECT_PROTOCOL with value 1 is required"),
            CapabilityError::MissingH3Datagram => push_str(&mut v, "SETTINGS_H3_DATAGRAM with value 1 is required"),
            CapabilityError::MissingQuicDatagram => push_str(&mut v, "max_datagram_frame_size transport parameter > 0 is required"),
            CapabilityError::MissingResetStreamAt => push_str(&mut v, "reset_stream_at transport parameter is required"),
        }
        assert(v@ =~= capability_error_message(*self));
        string_from_chars(v.as_slice())
    }
}

} // verus!
