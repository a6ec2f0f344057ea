//! WebTransport over HTTP/3 (draft-ietf-webtrans-http3, drafts 02 to 15).
//!
//! Sessions, their streams and datagrams, flow control, the capsule
//! protocol, the extended CONNECT exchange and the SETTINGS that announce
//! WebTransport support.

pub mod connect;
pub mod settings;
pub mod capsule;
pub mod error;
pub mod stream;
pub mod datagram;
pub mod session;

pub use capsule::{
    Capsule, CapsuleType, CapsuleValidationError, H3_DATAGRAM_ERROR, MAX_STREAMS_LIMIT,
    PROHIBITED_WT_MAX_STREAM_DATA_CAPSULE_TYPE, PROHIBITED_WT_STREAM_DATA_BLOCKED_CAPSULE_TYPE,
};
pub use connect::{
    CapabilityError, ConnectError, ConnectRequest, ConnectResponse, DraftVersion,
    PROTOCOL_WEBTRANSPORT_DRAFT02, PROTOCOL_WEBTRANSPORT_H3, ServerSettingsParams,
    TransportCapabilities,
};
pub use datagram::Datagram;
pub use error::{ApplicationErrorCode, Error, ErrorCode};
pub use session::flow_control::{FlowControlLimits, FlowControlState};
pub use session::{BufferedStream, CapsuleProcessError, Session, SessionState};
pub use settings::Settings;
pub use stream::{
    BIDIRECTIONAL_SIGNAL_VALUE, ClassifiedUniStream, Stream, StreamHeader, StreamHeaderDecodeError,
    UNIDIRECTIONAL_STREAM_TYPE, classify_uni_stream, classify_uni_stream_checked, stream_type,
};
