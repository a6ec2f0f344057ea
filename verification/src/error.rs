//! Error types shared by the protocol modules.

use vstd::prelude::*;

verus! {

/// QPACK encoding and decoding failures (RFC 9204).
#[derive(Debug, Clone, Copy, PartialEq, Eq, Structural)]
pub enum QpackError {
    /// The input ends before the representation does.
    BufferTooShort,
    /// The representation is malformed (QPACK_DECOMPRESSION_FAILED).
    DecodeFailed,
    /// A table index refers to no entry.
    InvalidIndex(u64),
    /// A Huffman-coded string is malformed (RFC 7541 Section 5.2).
    InvalidHuffman,
    /// A dynamic table capacity exceeds the permitted maximum.
    CapacityExceeded,
    /// The dynamic table is disabled (maximum capacity 0).
    DynamicTableDisabled,
}

/// HTTP/3 error codes (RFC 9114 Section 8.1).
#[derive(Debug, Clone, Copy, PartialEq, Eq, Structural)]
pub enum ErrorCode {
    /// H3_INTERNAL_ERROR.
    InternalError,
    /// H3_MESSAGE_ERROR.
    MessageError,
    /// H3_FRAME_UNEXPECTED: a frame not permitted in the current state or
    /// on this stream.
    FrameUnexpected,
    /// H3_FRAME_ERROR: a frame that is malformed or cut short.
    FrameError,
    /// H3_STREAM_CREATION_ERROR: a stream of a type not acceptable.
    StreamCreationError,
    /// H3_MISSING_SETTINGS: the control stream did not start with SETTINGS.
    MissingSettings,
    /// H3_SETTINGS_ERROR: a SETTINGS frame that breaks the rules.
    SettingsError,
    /// H3_CLOSED_CRITICAL_STREAM: a control stream used out of order.
    ClosedCriticalStream,
}

/// How an HTTP/3 error is to be handled.
#[derive(Debug, Clone, Copy, PartialEq, Eq, Structural)]
pub enum Error {
    /// Reset the stream with the given code.
    StreamError(ErrorCode),
    /// Close the connection with the given code.
    ConnectionError(ErrorCode),
    /// The stream with this ID can no longer send.
    StreamClosed(u64),
}

/// The role of an endpoint.
#[derive(Debug, Clone, Copy, PartialEq, Eq, Structural)]
pub enum Role {
    /// The endpoint that sends requests.
    Client,
    /// The endpoint that answers them.
    Server,
}

} // verus!
