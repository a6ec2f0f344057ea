//! Local limits an endpoint advertises in its SETTINGS.

use vstd::prelude::*;

verus! {

/// Limits an endpoint places on its peer, as plain numbers.
#[derive(Debug, Clone, Copy, PartialEq, Eq, Structural)]
pub struct Limits {
    /// The QPACK dynamic table capacity offered to the peer's encoder.
    pub qpack_max_table_capacity: u64,
    /// The largest field section accepted.
    pub max_field_section_size: u64,
    /// The number of streams the peer's encoder may block.
    pub qpack_blocked_streams: u64,
}

impl Limits {
    /// No dynamic table, a 16 KiB field section limit, no blocked streams.
    pub fn new() -> (r: Limits)
        ensures
            r.qpack_max_table_capacity == 0,
            r.max_field_section_size == 16384,
            r.qpack_blocked_streams == 0,
    {
        Limits { qpack_max_table_capacity: 0, max_field_section_size: 16384, qpack_blocked_streams: 0 }
    }

    /// The same limits with the QPACK table capacity set.
    pub fn qpack_max_table_capacity(self, capacity: u64) -> (r: Limits)
        ensures
            r == (Limits { qpack_max_table_capacity: capacity, ..self }),
    {
        Limits { qpack_max_table_capacity: capacity, ..self }
    }

    /// The same limits with the field section limit set.
    pub fn max_field_section_size(self, size: u64) -> (r: Limits)
        ensures
            r == (Limits { max_field_section_size: size, ..self }),
    {
        Limits { max_field_section_size: size, ..self }
    }

    /// The same limits with the blocked stream count set.
    pub fn qpack_blocked_streams(self, streams: u64) -> (r: Limits)
        ensures
            r == (Limits { qpack_blocked_streams: streams, ..self }),
    {
        Limits { qpack_blocked_streams: streams, ..self }
    }
}

} // verus!
