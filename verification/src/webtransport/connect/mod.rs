//! The extended CONNECT exchange that opens a WebTransport session
//! (RFC 8441, RFC 9220, draft-ietf-webtrans-http3-15 Section 3).

pub mod draft;

use vstd::prelude::*;

verus! {

/// The `:protocol` of draft 15 (draft-ietf-webtrans-http3-15 Section 3.2).
pub const PROTOCOL_WEBTRANSPORT_H3: &'static str = "webtransport-h3";

/// The `:protocol` of drafts 02 to 14.
pub const PROTOCOL_WEBTRANSPORT_DRAFT02: &'static str = "webtransport";

} // verus!

pub use draft::{DraftVersion, ServerSettingsParams};
pub mod connect_error;
pub mod sf_parser;

pub use connect_error::{CapabilityError, ConnectError, TransportCapabilities};
pub mod request;
pub use request::ConnectRequest;
pub mod response;
pub mod roundtrip;
pub use response::ConnectResponse;
