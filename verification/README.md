# shiguredo_http3

HTTP/3 (RFC 9114), QPACK (RFC 9204) and WebTransport over HTTP/3 protocol
logic, written in Verus: each public function states what it returns and
how it changes its arguments, and Verus proves the code against it.

Layout:

- `src/varint.rs`, `src/bytes_be.rs`: QUIC variable-length integers and
  big-endian byte strings.
- `src/frame.rs`: frame headers, frame payloads and SETTINGS payloads.
- `src/settings.rs`, `src/limits.rs`, `src/validation.rs`: HTTP/3 settings,
  limits and header-section validation.
- `src/stream/`: stream kinds and buffers, request streams and control
  streams.
- `src/qpack/`: prefix integers, Huffman coding, the static and dynamic
  tables, field-section encoding and decoding, and the encoder and
  decoder instruction streams; the round-trip laws sit in
  `roundtrip.rs`, `dynamic_roundtrip.rs` and `huffman_roundtrip.rs`.
- `src/webtransport/`: capsules, datagrams, stream headers, extended
  CONNECT requests and responses, settings and sessions with their flow
  control.
- `src/buf.rs`, `src/text.rs`: the calls into `bytes` and `core::str`
  that the library trusts, each with the contract it relies on.
- `tests/`: tests run against the compiled library.
- `app/`: `Display` and `std::error::Error` for copies of the error types.
