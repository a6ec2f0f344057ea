//! HTTP/3, QPACK and WebTransport protocol logic.

pub mod bytes_be;
pub mod varint;
pub mod error;
pub mod qpack;
pub mod validation;
pub mod settings;
pub mod limits;
pub mod frame;
pub mod webtransport;
pub mod text;
pub mod buf;
pub mod stream;
