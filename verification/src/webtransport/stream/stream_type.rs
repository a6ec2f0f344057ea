//! What the two low bits of a QUIC stream ID say (RFC 9000 Section 2.1).

use vstd::prelude::*;

verus! {

/// Whether the client opened the stream (bit 0 clear).
pub fn is_client_initiated(stream_id: u64) -> (r: bool)
    ensures
        r == (stream_id % 2 == 0),
{
    stream_id % 2 == 0
}

/// Whether the server opened the stream (bit 0 set).
pub fn is_server_initiated(stream_id: u64) -> (r: bool)
    ensures
        r == (stream_id % 2 == 1),
{
    stream_id % 2 == 1
}

/// Whether the stream is bidirectional (bit 1 clear).
pub fn is_bidirectional(stream_id: u64) -> (r: bool)
    ensures
        r == (stream_id % 4 < 2),
{
    stream_id % 4 < 2
}

/// Whether the stream is unidirectional (bit 1 set).
pub fn is_unidirectional(stream_id: u64) -> (r: bool)
    ensures
        r == (stream_id % 4 >= 2),
{
    stream_id % 4 >= 2
}

} // verus!
