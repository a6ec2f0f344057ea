//! QPACK field section encoding (RFC 9204 Section 4.5) with the static
//! table and, when the peer allows it, the dynamic table; and the state the
//! encoder keeps on the peer's acknowledgments (Sections 2.1.1, 2.1.4, 4.4).

use vstd::prelude::*;
use std::collections::VecDeque;
use crate::error::QpackError;
use crate::qpack::header::{Header, HeaderView};
use crate::qpack::integer::{prefix_int_encoding, encode_integer_to_vec};
use crate::qpack::table::{STATIC_TABLE_LEN, static_name, static_value, static_exact, find_static_entry, get_static_entry};
use crate::qpack::wire::{string_repr, push_string_with_prefix, write_all};
use crate::qpack::dynamic_table::{DynamicTable, DynamicTableView, table_wf, find_outcome, insert_outcome,
    entry_at_relative, evicted, is_first_exact, is_first_name};

verus! {

/// Whether `k` is the first static entry holding `name` and `value`.
pub open spec fn is_first_static_exact(name: Seq<u8>, value: Seq<u8>, k: int) -> bool {
    &&& 0 <= k < STATIC_TABLE_LEN
    &&& static_exact(k, name, value)
    &&& forall|j: int| 0 <= j < k ==> !static_exact(j, name, value)
}

/// Whether `k` is the first static entry named `name`.
pub open spec fn is_first_static_name(name: Seq<u8>, k: int) -> bool {
    &&& 0 <= k < STATIC_TABLE_LEN
    &&& static_name(k) == name
    &&& forall|j: int| 0 <= j < k ==> static_name(j) != name
}

/// The first static entry holding `name` and `value`.
#[verifier::opaque]
pub open spec fn static_exact_index(name: Seq<u8>, value: Seq<u8>) -> Option<nat> {
    if exists|k: int| is_first_static_exact(name, value, k) {
        Some((choose|k: int| is_first_static_exact(name, value, k)) as nat)
    } else {
        None
    }
}

/// The first static entry named `name`.
#[verifier::opaque]
pub open spec fn static_name_index(name: Seq<u8>) -> Option<nat> {
    if exists|k: int| is_first_static_name(name, k) {
        Some((choose|k: int| is_first_static_name(name, k)) as nat)
    } else {
        None
    }
}

/// Searches the static table: the first exact match, and the first entry
/// with the name.
fn find_static(name: &[u8], value: &[u8]) -> (r: (Option<usize>, Option<usize>))
    ensures
        match static_exact_index(name@, value@) {
            Some(k) => r == (Some(k as usize), Some(k as usize)) && k < STATIC_TABLE_LEN,
            None => r.0 is None && match static_name_index(name@) {
                Some(k) => r.1 == Some(k as usize) && k < STATIC_TABLE_LEN,
                None => r.1 is None,
            },
        },
{
    reveal(static_exact_index);
    reveal(static_name_index);
    let r = find_static_entry(name, value);
    proof {
        match r.0 {
            Some(k) => {
                assert(is_first_static_exact(name@, value@, k as int));
                let c = choose|c: int| is_first_static_exact(name@, value@, c);
                assert(is_first_static_exact(name@, value@, c));
                if c < k {
                    assert(!static_exact(c, name@, value@));
                }
                if c > k {
                    assert(!static_exact(k as int, name@, value@));
                }
            },
            None => {
                assert(!exists|c: int| is_first_static_exact(name@, value@, c));
                match r.1 {
                    Some(k) => {
                        assert(is_first_static_name(name@, k as int));
                        let c = choose|c: int| is_first_static_name(name@, c);
                        assert(is_first_static_name(name@, c));
                        if c < k {
                            assert(static_name(c) != name@);
                        }
                        if c > k {
                            assert(static_name(k as int) != name@);
                        }
                    },
                    None => {
                        assert(!exists|c: int| is_first_static_name(name@, c));
                    },
                }
            },
        }
    }
    r
}

/// A field value: a 7-bit length prefix.
pub open spec fn value_repr(value: Seq<u8>, use_huffman: bool) -> Seq<u8> {
    string_repr(value, 7, 0, 0x80, use_huffman)
}

/// Literal Field Line with Literal Name (Section 4.5.6).
pub open spec fn literal_line(h: HeaderView, use_huffman: bool) -> Seq<u8> {
    string_repr(h.name, 3, if h.never_indexed { 0x30 } else { 0x20 }, 0x08, use_huffman) + value_repr(h.value, use_huffman)
}

/// Indexed Field Line for static entry `k` (Section 4.5.2).
pub open spec fn static_indexed_line(k: nat) -> Seq<u8> {
    prefix_int_encoding(k, 6, 0xc0)
}

/// Literal Field Line with a static name reference (Section 4.5.4).
pub open spec fn static_name_line(k: nat, h: HeaderView, use_huffman: bool) -> Seq<u8> {
    prefix_int_encoding(k, 4, if h.never_indexed { 0x70 } else { 0x50 }) + value_repr(h.value, use_huffman)
}

/// The field line for `h` with the static table only: an index for an
/// exact match, else a name reference, else a literal name.
pub open spec fn static_line_encoding(h: HeaderView, use_huffman: bool) -> Seq<u8> {
    match static_exact_index(h.name, h.value) {
        Some(k) => static_indexed_line(k),
        None => match static_name_index(h.name) {
            Some(k) => static_name_line(k, h, use_huffman),
            None => literal_line(h, use_huffman),
        },
    }
}

/// Indexed Field Line for the dynamic entry at absolute index `a` against
/// `base`: a relative index below the base (Section 4.5.2), a post-base
/// index from it on (Section 4.5.3).
pub open spec fn dynamic_indexed_line(a: u64, base: u64) -> Seq<u8> {
    if a >= base {
        prefix_int_encoding((a - base) as nat, 4, 0x10)
    } else {
        prefix_int_encoding((base - a - 1) as nat, 6, 0x80)
    }
}

/// Literal Field Line whose name is that of the dynamic entry at absolute
/// index `a` against `base`: relative below the base (Section 4.5.4),
/// post-base from it on (Section 4.5.5); then the value.
pub open spec fn dynamic_name_line(a: u64, base: u64, value: Seq<u8>, never_indexed: bool, use_huffman: bool) -> Seq<u8> {
    (if a >= base {
        prefix_int_encoding((a - base) as nat, 3, if never_indexed { 0x10 } else { 0x00 })
    } else {
        prefix_int_encoding((base - a - 1) as nat, 4, if never_indexed { 0x60 } else { 0x40 })
    }) + value_repr(value, use_huffman)
}

/// The field line for `h` when the dynamic table may be used, with `base`:
/// a dynamic exact match first, then a static exact match, a dynamic name,
/// a static name, a literal name.
pub open spec fn dynamic_line_encoding(t: DynamicTableView, base: u64, h: HeaderView, use_huffman: bool) -> Seq<u8> {
    let (de, dn) = find_outcome(t, h.name, h.value);
    match de {
        Some(a) => dynamic_indexed_line(a, base),
        None => match static_exact_index(h.name, h.value) {
            Some(k) => static_indexed_line(k),
            None => match dn {
                Some(a) => dynamic_name_line(a, base, h.value, h.never_indexed, use_huffman),
                None => match static_name_index(h.name) {
                    Some(k) => static_name_line(k, h, use_huffman),
                    None => literal_line(h, use_huffman),
                },
            },
        },
    }
}

/// The field lines of `hs`, each encoded with `line`.
pub open spec fn lines_encoding(hs: Seq<HeaderView>, line: spec_fn(HeaderView) -> Seq<u8>) -> Seq<u8>
    decreases hs.len(),
{
    if hs.len() == 0 {
        Seq::empty()
    } else {
        lines_encoding(hs.drop_last(), line) + line(hs.last())
    }
}

/// A field section with the static table only: Required Insert Count 0,
/// Delta Base 0, then the lines.
pub open spec fn static_section_encoding(hs: Seq<HeaderView>, use_huffman: bool) -> Seq<u8> {
    seq![0x00u8, 0x00u8] + lines_encoding(hs, |h: HeaderView| static_line_encoding(h, use_huffman))
}

/// The largest absolute index, plus one, of the dynamic entries the lines
/// of `hs` would refer to: the Required Insert Count.
pub open spec fn required_insert_count(t: DynamicTableView, hs: Seq<HeaderView>) -> nat
    decreases hs.len(),
{
    if hs.len() == 0 {
        0
    } else {
        let prev = required_insert_count(t, hs.drop_last());
        let h = hs.last();
        let r: nat = match find_outcome(t, h.name, h.value).1 {
            Some(a) => a as nat + 1,
            None => 0,
        };
        if r > prev {
            r
        } else {
            prev
        }
    }
}

/// The encoded Required Insert Count (Section 4.5.1.1).
pub open spec fn ric_encoding(ric: nat, max_table_capacity: u64) -> nat {
    if ric == 0 || max_table_capacity / 32 == 0 {
        0
    } else {
        ric % (2 * (max_table_capacity / 32) as nat) + 1
    }
}

/// A field section that may use the dynamic table, with Base equal to the
/// Required Insert Count (Sign 0, Delta Base 0).
pub open spec fn dynamic_section_encoding(t: DynamicTableView, max_table_capacity: u64, hs: Seq<HeaderView>, use_huffman: bool) -> Seq<u8> {
    let ric = required_insert_count(t, hs);
    prefix_int_encoding(ric_encoding(ric, max_table_capacity), 8, 0x00) + seq![0x00u8] + lines_encoding(
        hs,
        |h: HeaderView| dynamic_line_encoding(t, ric as u64, h, use_huffman),
    )
}

/// The views of headers.
pub open spec fn views_of(hs: Seq<Header>) -> Seq<HeaderView> {
    hs.map_values(|h: Header| h@)
}

/// The abstract state of an encoder.
pub struct DynamicEncoderView {
    /// The dynamic table.
    pub table: DynamicTableView,
    /// Whether strings are Huffman-coded when that is shorter.
    pub use_huffman: bool,
    /// The peer's maximum table capacity.
    pub max_table_capacity: u64,
    /// The insert count the peer has acknowledged.
    pub known_received_count: u64,
    /// The Required Insert Count of the last encoded section.
    pub last_required_insert_count: u64,
    /// The peer's SETTINGS_QPACK_BLOCKED_STREAMS.
    pub peer_max_blocked_streams: u64,
    /// The unacknowledged sections: per stream, their Required Insert
    /// Counts, oldest first.
    pub unacked: Seq<(u64, Seq<u64>)>,
}

/// The encoder's consistency: a sound table, and each stream listed once
/// with at least one section.
pub open spec fn encoder_wf(v: DynamicEncoderView) -> bool {
    &&& table_wf(v.table)
    &&& forall|i: int, j: int| 0 <= i < j < v.unacked.len() ==> v.unacked[i].0 != v.unacked[j].0
    &&& forall|i: int| 0 <= i < v.unacked.len() ==> #[trigger] v.unacked[i].1.len() > 0
}

/// The largest value in a queue, or 0.
pub open spec fn seq_max(q: Seq<u64>) -> u64
    decreases q.len(),
{
    if q.len() == 0 {
        0
    } else {
        let m = seq_max(q.drop_last());
        if q.last() > m {
            q.last()
        } else {
            m
        }
    }
}

/// The largest Required Insert Count of the unacknowledged sections, or 0.
pub open spec fn unacked_max(u: Seq<(u64, Seq<u64>)>) -> u64
    decreases u.len(),
{
    if u.len() == 0 {
        0
    } else {
        let m = unacked_max(u.drop_last());
        let q = seq_max(u.last().1);
        if q > m {
            q
        } else {
            m
        }
    }
}

/// The position of stream `id` among the unacknowledged sections, or -1.
pub open spec fn unacked_index(u: Seq<(u64, Seq<u64>)>, id: u64) -> int {
    if exists|i: int| 0 <= i < u.len() && u[i].0 == id {
        choose|i: int| 0 <= i < u.len() && u[i].0 == id
    } else {
        -1
    }
}

/// An encoder after the eviction limit is set to the largest
/// unacknowledged Required Insert Count.
pub open spec fn with_eviction_limit(v: DynamicEncoderView) -> DynamicEncoderView {
    DynamicEncoderView { table: DynamicTableView { eviction_limit: unacked_max(v.unacked), ..v.table }, ..v }
}

/// A QPACK encoder that uses the static table and, where allowed, the
/// dynamic table.
#[derive(Debug)]
pub struct DynamicEncoder {
    table: DynamicTable,
    use_huffman: bool,
    max_table_capacity: u64,
    known_received_count: u64,
    last_required_insert_count: u64,
    peer_max_blocked_streams: u64,
    unacked_section_rics: Vec<(u64, VecDeque<u64>)>,
}

/// The static-table encoder: a [`DynamicEncoder`] whose table stays empty.
pub type Encoder = DynamicEncoder;

impl View for DynamicEncoder {
    type V = DynamicEncoderView;

    closed spec fn view(&self) -> DynamicEncoderView {
        DynamicEncoderView {
            table: self.table@,
            use_huffman: self.use_huffman,
            max_table_capacity: self.max_table_capacity,
            known_received_count: self.known_received_count,
            last_required_insert_count: self.last_required_insert_count,
            peer_max_blocked_streams: self.peer_max_blocked_streams,
            unacked: self.unacked_section_rics@.map_values(|e: (u64, VecDeque<u64>)| (e.0, e.1@)),
        }
    }
}

impl Default for DynamicEncoder {
    fn default() -> (r: DynamicEncoder)
        ensures
            r@ == DynamicEncoder::new_view(),
            encoder_wf(r@),
    {
        DynamicEncoder::new()
    }
}

/// The size estimate of one header: 2 for an exact static match, 3 plus
/// the value for a static name match, else 3 plus the name and value.
pub open spec fn header_estimate(h: HeaderView) -> nat {
    match static_exact_index(h.name, h.value) {
        Some(_) => 2,
        None => match static_name_index(h.name) {
            Some(_) => 3 + h.value.len(),
            None => 3 + h.name.len() + h.value.len(),
        },
    }
}

/// The size estimate of a header list: 2 plus each header's.
pub open spec fn estimate(hs: Seq<HeaderView>) -> nat
    decreases hs.len(),
{
    if hs.len() == 0 {
        2
    } else {
        estimate(hs.drop_last()) + header_estimate(hs.last())
    }
}

/// Estimates the buffer a header list needs when encoded with the static
/// table.
pub fn estimate_encoded_size(headers: &[Header]) -> (r: usize)
    requires
        estimate(views_of(headers@)) <= usize::MAX,
    ensures
        r == estimate(views_of(headers@)),
{
    let mut size: usize = 2;
    let mut i: usize = 0;
    while i < headers.len()
        invariant
            i <= headers.len(),
            estimate(views_of(headers@)) <= usize::MAX,
            size == estimate(views_of(headers@).take(i as int)),
        decreases headers.len() - i,
    {
        let h = &headers[i];
        proof {
            assert(views_of(headers@).take(i + 1).drop_last() =~= views_of(headers@).take(i as int));
            lemma_estimate_mono(views_of(headers@), i + 1);
        }
        let (exact, name) = find_static(h.name(), h.value());
        if exact.is_some() {
            size = size + 2;
        } else if name.is_some() {
            size = size + 3 + h.value().len();
        } else {
            size = size + 3 + h.name().len() + h.value().len();
        }
        i = i + 1;
    }
    assert(views_of(headers@).take(headers@.len() as int) =~= views_of(headers@));
    size
}

/// The estimate of a prefix is at most that of the whole.
proof fn lemma_estimate_mono(hs: Seq<HeaderView>, k: int)
    requires
        0 <= k <= hs.len(),
    ensures
        estimate(hs.take(k)) <= estimate(hs),
    decreases hs.len() - k,
{
    if k < hs.len() {
        lemma_estimate_mono(hs, k + 1);
        assert(hs.take(k + 1).drop_last() =~= hs.take(k));
    } else {
        assert(hs.take(k) =~= hs);
    }
}

impl DynamicEncoder {
    /// The state of a new encoder.
    pub open spec fn new_view() -> DynamicEncoderView {
        DynamicEncoderView {
            table: DynamicTable::empty_view(0),
            use_huffman: true,
            max_table_capacity: 0,
            known_received_count: 0,
            last_required_insert_count: 0,
            peer_max_blocked_streams: 0,
            unacked: Seq::empty(),
        }
    }

    /// An encoder with an empty table, Huffman coding on.
    pub fn new() -> (r: DynamicEncoder)
        ensures
            r@ == Self::new_view(),
            encoder_wf(r@),
    {
        let r = DynamicEncoder {
            table: DynamicTable::new(),
            use_huffman: true,
            max_table_capacity: 0,
            known_received_count: 0,
            last_required_insert_count: 0,
            peer_max_blocked_streams: 0,
            unacked_section_rics: Vec::new(),
        };
        assert(r@.unacked =~= Seq::empty());
        r
    }

    /// This encoder with Huffman coding on or off.
    pub fn use_huffman(self, use_huffman: bool) -> (r: DynamicEncoder)
        ensures
            r@ == (DynamicEncoderView { use_huffman, ..self@ }),
    {
        DynamicEncoder { use_huffman, ..self }
    }

    /// Records the peer's maximum table capacity (its SETTINGS).
    pub fn set_max_table_capacity(&mut self, capacity: u64)
        ensures
            final(self)@ == (DynamicEncoderView { max_table_capacity: capacity, ..old(self)@ }),
    {
        self.max_table_capacity = capacity;
    }

    /// Records the peer's SETTINGS_QPACK_BLOCKED_STREAMS, the most streams
    /// that may be blocked at once (Section 2.1.2).
    pub fn set_peer_max_blocked_streams(&mut self, max: u64)
        ensures
            final(self)@ == (DynamicEncoderView { peer_max_blocked_streams: max, ..old(self)@ }),
    {
        self.peer_max_blocked_streams = max;
    }

    /// The peer's SETTINGS_QPACK_BLOCKED_STREAMS.
    pub fn peer_max_blocked_streams(&self) -> (r: u64)
        ensures
            r == self@.peer_max_blocked_streams,
    {
        self.peer_max_blocked_streams
    }

    /// Sets the dynamic table's capacity; `CapacityExceeded` above the
    /// peer's maximum (0 is always allowed, Section 3.2.3).
    pub fn set_table_capacity(&mut self, capacity: u64) -> (r: Result<(), QpackError>)
        requires
            encoder_wf(old(self)@),
        ensures
            capacity > old(self)@.max_table_capacity ==> r == Err::<(), QpackError>(QpackError::CapacityExceeded)
                && final(self)@ == old(self)@,
            capacity <= old(self)@.max_table_capacity ==> r is Ok && final(self)@ == (DynamicEncoderView {
                table: evicted(DynamicTableView { max_capacity: capacity, ..old(self)@.table }, 0),
                ..old(self)@
            }),
            encoder_wf(final(self)@),
    {
        if capacity > self.max_table_capacity {
            return Err(QpackError::CapacityExceeded);
        }
        self.table.set_capacity(capacity);
        Ok(())
    }

    /// The dynamic table.
    pub fn table(&self) -> (r: &DynamicTable)
        ensures
            r@ == self@.table,
    {
        &self.table
    }

    /// The dynamic table, to change it.
    pub fn table_mut(&mut self) -> (r: &mut DynamicTable)
        ensures
            r@ == old(self)@.table,
            final(self)@ == (DynamicEncoderView { table: final(r)@, ..old(self)@ }),
    {
        &mut self.table
    }

    /// The insert count the peer has acknowledged.
    pub fn known_received_count(&self) -> (r: u64)
        ensures
            r == self@.known_received_count,
    {
        self.known_received_count
    }

    /// The dynamic table's insert count: the entries sent.
    pub fn insert_count(&self) -> (r: u64)
        ensures
            r == self@.table.insert_count,
    {
        self.table.insert_count()
    }

    /// The position of stream `stream_id`'s unacknowledged sections.
    fn find_unacked(&self, stream_id: u64) -> (r: Option<usize>)
        requires
            encoder_wf(self@),
        ensures
            match r {
                Some(i) => i < self@.unacked.len() && self@.unacked[i as int].0 == stream_id
                    && unacked_index(self@.unacked, stream_id) == i,
                None => unacked_index(self@.unacked, stream_id) == -1,
            },
    {
        let ghost u = self@.unacked;
        let mut i: usize = 0;
        while i < self.unacked_section_rics.len()
            invariant
                i <= self.unacked_section_rics.len(),
                u == self@.unacked,
                u.len() == self.unacked_section_rics@.len(),
                encoder_wf(self@),
                forall|j: int| 0 <= j < i ==> u[j].0 != stream_id,
            decreases self.unacked_section_rics.len() - i,
        {
            if self.unacked_section_rics[i].0 == stream_id {
                proof {
                    assert(u[i as int].0 == stream_id);
                    let k = choose|k: int| 0 <= k < u.len() && u[k].0 == stream_id;
                    if k != i {
                        assert(u[k].0 != u[i as int].0);
                    }
                }
                return Some(i);
            }
            i = i + 1;
        }
        None
    }

    /// Sets the table's eviction limit to the largest unacknowledged
    /// Required Insert Count, keeping the entries those sections may use.
    fn update_eviction_limit(&mut self)
        requires
            encoder_wf(old(self)@),
        ensures
            final(self)@ == with_eviction_limit(old(self)@),
            encoder_wf(final(self)@),
    {
        let ghost u = self@.unacked;
        let mut m: u64 = 0;
        let mut i: usize = 0;
        while i < self.unacked_section_rics.len()
            invariant
                i <= self.unacked_section_rics.len(),
                u == self@.unacked,
                u.len() == self.unacked_section_rics@.len(),
                m == unacked_max(u.take(i as int)),
            decreases self.unacked_section_rics.len() - i,
        {
            let q = &self.unacked_section_rics[i].1;
            assert(q@ == u[i as int].1);
            let mut qm: u64 = 0;
            let mut j: usize = 0;
            while j < q.len()
                invariant
                    j <= q@.len(),
                    qm == seq_max(q@.take(j as int)),
                decreases q@.len() - j,
            {
                assert(q@.take(j + 1).drop_last() =~= q@.take(j as int));
                if q[j] > qm {
                    qm = q[j];
                }
                j = j + 1;
            }
            assert(q@.take(q@.len() as int) =~= q@);
            assert(u.take(i + 1).drop_last() =~= u.take(i as int));
            if qm > m {
                m = qm;
            }
            i = i + 1;
        }
        assert(u.take(u.len() as int) =~= u);
        self.table.set_eviction_limit(m);
    }

    /// Records the peer's acknowledgment of `count` inserts (an Insert
    /// Count Increment); the count never goes down.
    pub fn acknowledge(&mut self, count: u64)
        requires
            encoder_wf(old(self)@),
        ensures
            final(self)@ == with_eviction_limit(DynamicEncoderView {
                known_received_count: if count > old(self)@.known_received_count {
                    count
                } else {
                    old(self)@.known_received_count
                },
                ..old(self)@
            }),
            encoder_wf(final(self)@),
    {
        if count > self.known_received_count {
            self.known_received_count = count;
        }
        self.update_eviction_limit();
    }

    /// Records a sent field section with a nonzero Required Insert Count on
    /// stream `stream_id`; its entries are kept until it is acknowledged
    /// (Section 2.1.1).
    pub fn track_section(&mut self, stream_id: u64, required_insert_count: u64)
        requires
            encoder_wf(old(self)@),
        ensures
            required_insert_count == 0 ==> final(self)@ == old(self)@,
            required_insert_count > 0 ==> final(self)@ == with_eviction_limit(DynamicEncoderView {
                unacked: with_section(old(self)@.unacked, stream_id, required_insert_count),
                ..old(self)@
            }),
            encoder_wf(final(self)@),
    {
        if required_insert_count > 0 {
            let ghost u = self@.unacked;
            match self.find_unacked(stream_id) {
                Some(i) => {
                    let mut entry: (u64, VecDeque<u64>) = (stream_id, VecDeque::new());
                    std::mem::swap(&mut entry, &mut self.unacked_section_rics[i]);
                    entry.1.push_back(required_insert_count);
                    self.unacked_section_rics.set(i, entry);
                    proof {
                        assert(self@.unacked =~= with_section(u, stream_id, required_insert_count));
                        assert forall|a: int, b: int| 0 <= a < b < self@.unacked.len() implies self@.unacked[a].0
                            != self@.unacked[b].0 by {
                            assert(u[a].0 != u[b].0);
                        }
                        assert forall|a: int| 0 <= a < self@.unacked.len() implies #[trigger] self@.unacked[a].1.len() > 0 by {
                            if a != i {
                                assert(u[a].1.len() > 0);
                            }
                        }
                    }
                },
                None => {
                    let mut q: VecDeque<u64> = VecDeque::new();
                    q.push_back(required_insert_count);
                    self.unacked_section_rics.push((stream_id, q));
                    proof {
                        assert(self@.unacked =~= with_section(u, stream_id, required_insert_count));
                        assert forall|a: int, b: int| 0 <= a < b < self@.unacked.len() implies self@.unacked[a].0
                            != self@.unacked[b].0 by {
                            if b == u.len() {
                                assert(!(0 <= a < u.len() && u[a].0 == stream_id));
                            } else {
                                assert(u[a].0 != u[b].0);
                            }
                        }
                        assert forall|a: int| 0 <= a < self@.unacked.len() implies #[trigger] self@.unacked[a].1.len() > 0 by {
                            if a < u.len() {
                                assert(u[a].1.len() > 0);
                            }
                        }
                    }
                },
            }
            self.update_eviction_limit();
        }
    }

    /// Handles a Section Acknowledgment for stream `stream_id` (Section
    /// 4.4.1): its oldest unacknowledged section is released and its
    /// Required Insert Count becomes known as received (Section 2.1.4).
    /// `DecodeFailed` where the stream has none, which the caller reports as
    /// QPACK_DECODER_STREAM_ERROR.
    pub fn ack_section(&mut self, stream_id: u64) -> (r: Result<(), QpackError>)
        requires
            encoder_wf(old(self)@),
        ensures
            unacked_index(old(self)@.unacked, stream_id) == -1 ==> r == Err::<(), QpackError>(
                QpackError::DecodeFailed,
            ) && final(self)@ == old(self)@,
            unacked_index(old(self)@.unacked, stream_id) >= 0 ==> r is Ok && final(self)@ == with_eviction_limit(
                acked(old(self)@, stream_id),
            ),
            encoder_wf(final(self)@),
    {
        let ghost u = self@.unacked;
        let i = match self.find_unacked(stream_id) {
            Some(i) => i,
            None => return Err(QpackError::DecodeFailed),
        };
        let mut entry: (u64, VecDeque<u64>) = (stream_id, VecDeque::new());
        std::mem::swap(&mut entry, &mut self.unacked_section_rics[i]);
        let ghost q = entry.1@;
        let ric = match entry.1.pop_front() {
            Some(x) => x,
            None => {
                proof {
                    assert(u[i as int].1.len() > 0);
                }
                return Err(QpackError::DecodeFailed);
            },
        };
        if entry.1.len() == 0 {
            self.unacked_section_rics.remove(i);
        } else {
            self.unacked_section_rics.set(i, entry);
        }
        if ric > self.known_received_count {
            self.known_received_count = ric;
        }
        proof {
            assert(self@.unacked =~= acked(old(self)@, stream_id).unacked);
            assert forall|a: int, b: int| 0 <= a < b < self@.unacked.len() implies self@.unacked[a].0
                != self@.unacked[b].0 by {
                if q.len() == 1 {
                    let a2 = if a < i { a } else { a + 1 };
                    let b2 = if b < i { b } else { b + 1 };
                    assert(u[a2].0 != u[b2].0);
                } else {
                    assert(u[a].0 != u[b].0);
                }
            }
            assert forall|a: int| 0 <= a < self@.unacked.len() implies #[trigger] self@.unacked[a].1.len() > 0 by {
                if q.len() == 1 {
                    let a2 = if a < i { a } else { a + 1 };
                    assert(u[a2].1.len() > 0);
                } else if a != i {
                    assert(u[a].1.len() > 0);
                }
            }
        }
        self.update_eviction_limit();
        Ok(())
    }

    /// Handles a Stream Cancellation (Section 4.4.2): every unacknowledged
    /// section of the stream is released.
    pub fn cancel_stream(&mut self, stream_id: u64)
        requires
            encoder_wf(old(self)@),
        ensures
            final(self)@ == with_eviction_limit(DynamicEncoderView {
                unacked: if unacked_index(old(self)@.unacked, stream_id) >= 0 {
                    old(self)@.unacked.remove(unacked_index(old(self)@.unacked, stream_id))
                } else {
                    old(self)@.unacked
                },
                ..old(self)@
            }),
            encoder_wf(final(self)@),
    {
        let ghost u = self@.unacked;
        match self.find_unacked(stream_id) {
            Some(i) => {
                self.unacked_section_rics.remove(i);
                proof {
                    assert(self@.unacked =~= u.remove(i as int));
                    assert forall|a: int, b: int| 0 <= a < b < self@.unacked.len() implies self@.unacked[a].0
                        != self@.unacked[b].0 by {
                        let a2 = if a < i { a } else { a + 1 };
                        let b2 = if b < i { b } else { b + 1 };
                        assert(u[a2].0 != u[b2].0);
                    }
                    assert forall|a: int| 0 <= a < self@.unacked.len() implies #[trigger] self@.unacked[a].1.len() > 0 by {
                        let a2 = if a < i { a } else { a + 1 };
                        assert(u[a2].1.len() > 0);
                    }
                }
            },
            None => {},
        }
        self.update_eviction_limit();
    }

    /// The number of unacknowledged sections on stream `stream_id`.
    pub fn unacked_section_count(&self, stream_id: u64) -> (r: u64)
        requires
            encoder_wf(self@),
        ensures
            r == (if unacked_index(self@.unacked, stream_id) >= 0 {
                self@.unacked[unacked_index(self@.unacked, stream_id)].1.len()
            } else {
                0
            }),
    {
        match self.find_unacked(stream_id) {
            Some(i) => self.unacked_section_rics[i].1.len() as u64,
            None => 0,
        }
    }

    /// The number of streams with unacknowledged sections.
    pub fn blocked_streams_count(&self) -> (r: usize)
        ensures
            r == self@.unacked.len(),
    {
        self.unacked_section_rics.len()
    }

    /// The Required Insert Count of the last encoded section.
    pub fn last_required_insert_count(&self) -> (r: u64)
        ensures
            r == self@.last_required_insert_count,
    {
        self.last_required_insert_count
    }
}

/// The unacknowledged sections after one more on stream `id`.
pub open spec fn with_section(u: Seq<(u64, Seq<u64>)>, id: u64, ric: u64) -> Seq<(u64, Seq<u64>)> {
    let i = unacked_index(u, id);
    if i >= 0 {
        u.update(i, (id, u[i].1.push(ric)))
    } else {
        u.push((id, seq![ric]))
    }
}

/// An encoder after a Section Acknowledgment on stream `id`: the oldest
/// section leaves (and the stream with its last), and its Required Insert
/// Count raises the known received count.
pub open spec fn acked(v: DynamicEncoderView, id: u64) -> DynamicEncoderView {
    let i = unacked_index(v.unacked, id);
    let q = v.unacked[i].1;
    let ric = q[0];
    DynamicEncoderView {
        unacked: if q.len() == 1 {
            v.unacked.remove(i)
        } else {
            v.unacked.update(i, (id, q.drop_first()))
        },
        known_received_count: if ric > v.known_received_count {
            ric
        } else {
            v.known_received_count
        },
        ..v
    }
}

/// The static line encoder, as a function value.
pub open spec fn static_line_fn(use_huffman: bool) -> spec_fn(HeaderView) -> Seq<u8> {
    |h: HeaderView| static_line_encoding(h, use_huffman)
}

/// The dynamic line encoder, as a function value.
pub open spec fn dynamic_line_fn(t: DynamicTableView, base: u64, use_huffman: bool) -> spec_fn(HeaderView) -> Seq<u8> {
    |h: HeaderView| dynamic_line_encoding(t, base, h, use_huffman)
}

/// The entries a search finds lie below the insert count.
proof fn lemma_find_bound(t: DynamicTableView, name: Seq<u8>, value: Seq<u8>)
    requires
        table_wf(t),
    ensures
        find_outcome(t, name, value).0 matches Some(a) ==> a < t.insert_count,
        find_outcome(t, name, value).1 matches Some(a) ==> a < t.insert_count,
{
    if exists|i: int| is_first_exact(t.entries, name, value, i) {
        let i = choose|i: int| is_first_exact(t.entries, name, value, i);
        assert(t.entries[i].absolute_index == t.insert_count - 1 - i);
    }
    if exists|i: int| is_first_name(t.entries, name, i) {
        let i = choose|i: int| is_first_name(t.entries, name, i);
        assert(t.entries[i].absolute_index == t.insert_count - 1 - i);
    }
}

/// The Required Insert Count stays within the insert count.
proof fn lemma_ric_bound(t: DynamicTableView, hs: Seq<HeaderView>)
    requires
        table_wf(t),
    ensures
        required_insert_count(t, hs) <= t.insert_count,
    decreases hs.len(),
{
    if hs.len() > 0 {
        lemma_ric_bound(t, hs.drop_last());
        lemma_find_bound(t, hs.last().name, hs.last().value);
    }
}

/// Appends a field line for `h` using the static table only.
fn push_static_line(out: &mut Vec<u8>, h: &Header, use_huffman: bool)
    ensures
        final(out)@ == old(out)@ + static_line_encoding(h@, use_huffman),
{
    assert((1u8 << 3u8) == 0x08u8 && (1u8 << 7u8) == 0x80u8) by (bit_vector);
    let (exact, name) = find_static(h.name(), h.value());
    match exact {
        Some(k) => {
            encode_integer_to_vec(out, k as u64, 6, 0xc0);
        },
        None => match name {
            Some(k) => {
                let prefix: u8 = if h.never_indexed() { 0x70 } else { 0x50 };
                encode_integer_to_vec(out, k as u64, 4, prefix);
                push_string_with_prefix(out, h.value(), 7, 0x00, use_huffman);
            },
            None => {
                let prefix: u8 = if h.never_indexed() { 0x30 } else { 0x20 };
                push_string_with_prefix(out, h.name(), 3, prefix, use_huffman);
                push_string_with_prefix(out, h.value(), 7, 0x00, use_huffman);
            },
        },
    }
    assert(final(out)@ =~= old(out)@ + static_line_encoding(h@, use_huffman));
}

/// Appends an Indexed Field Line for a dynamic entry.
fn push_dynamic_indexed(out: &mut Vec<u8>, absolute_index: u64, base: u64)
    ensures
        final(out)@ == old(out)@ + dynamic_indexed_line(absolute_index, base),
{
    if absolute_index >= base {
        encode_integer_to_vec(out, absolute_index - base, 4, 0x10);
    } else {
        encode_integer_to_vec(out, base - absolute_index - 1, 6, 0x80);
    }
}

/// Appends a Literal Field Line with a dynamic name reference.
fn push_dynamic_name(out: &mut Vec<u8>, absolute_index: u64, base: u64, value: &[u8], never_indexed: bool, use_huffman: bool)
    ensures
        final(out)@ == old(out)@ + dynamic_name_line(absolute_index, base, value@, never_indexed, use_huffman),
{
    assert((1u8 << 7u8) == 0x80u8) by (bit_vector);
    if absolute_index >= base {
        let prefix: u8 = if never_indexed { 0x10 } else { 0x00 };
        encode_integer_to_vec(out, absolute_index - base, 3, prefix);
    } else {
        let prefix: u8 = if never_indexed { 0x60 } else { 0x40 };
        encode_integer_to_vec(out, base - absolute_index - 1, 4, prefix);
    }
    push_string_with_prefix(out, value, 7, 0x00, use_huffman);
    assert(final(out)@ =~= old(out)@ + dynamic_name_line(absolute_index, base, value@, never_indexed, use_huffman));
}

/// Appends a field line for `h` that may refer to the dynamic table.
fn push_dynamic_line(out: &mut Vec<u8>, table: &DynamicTable, base: u64, h: &Header, use_huffman: bool)
    ensures
        final(out)@ == old(out)@ + dynamic_line_encoding(table@, base, h@, use_huffman),
{
    assert((1u8 << 3u8) == 0x08u8 && (1u8 << 7u8) == 0x80u8) by (bit_vector);
    let (dyn_exact, dyn_name) = table.find_entry(h.name(), h.value());
    let (static_exact, static_name) = find_static(h.name(), h.value());
    match dyn_exact {
        Some(a) => {
            push_dynamic_indexed(out, a, base);
        },
        None => match static_exact {
            Some(k) => {
                encode_integer_to_vec(out, k as u64, 6, 0xc0);
            },
            None => match dyn_name {
                Some(a) => {
                    push_dynamic_name(out, a, base, h.value(), h.never_indexed(), use_huffman);
                },
                None => match static_name {
                    Some(k) => {
                        let prefix: u8 = if h.never_indexed() { 0x70 } else { 0x50 };
                        encode_integer_to_vec(out, k as u64, 4, prefix);
                        push_string_with_prefix(out, h.value(), 7, 0x00, use_huffman);
                    },
                    None => {
                        let prefix: u8 = if h.never_indexed() { 0x30 } else { 0x20 };
                        push_string_with_prefix(out, h.name(), 3, prefix, use_huffman);
                        push_string_with_prefix(out, h.value(), 7, 0x00, use_huffman);
                    },
                },
            },
        },
    }
    assert(final(out)@ =~= old(out)@ + dynamic_line_encoding(table@, base, h@, use_huffman));
}

/// The encoded Required Insert Count for `ric` under `max_table_capacity`.
fn ric_value(ric: u64, max_table_capacity: u64) -> (r: u64)
    ensures
        r == ric_encoding(ric as nat, max_table_capacity),
{
    let max_entries = max_table_capacity / 32;
    if ric == 0 || max_entries == 0 {
        0
    } else {
        (ric % (2 * max_entries)) + 1
    }
}

/// The bytes of a static-table field section for `headers`.
fn static_section(headers: &[Header], use_huffman: bool) -> (r: Vec<u8>)
    ensures
        r@ == static_section_encoding(views_of(headers@), use_huffman),
{
    let ghost hs = views_of(headers@);
    let ghost line = static_line_fn(use_huffman);
    let mut out: Vec<u8> = Vec::new();
    out.push(0x00);
    out.push(0x00);
    let mut i: usize = 0;
    assert(hs.take(0) =~= Seq::<HeaderView>::empty());
    assert(out@ =~= seq![0x00u8, 0x00u8] + lines_encoding(hs.take(0), line));
    while i < headers.len()
        invariant
            i <= headers.len(),
            hs == views_of(headers@),
            line == static_line_fn(use_huffman),
            out@ == seq![0x00u8, 0x00u8] + lines_encoding(hs.take(i as int), line),
        decreases headers.len() - i,
    {
        push_static_line(&mut out, &headers[i], use_huffman);
        proof {
            assert(hs.take(i + 1).drop_last() =~= hs.take(i as int));
            assert(hs.take(i + 1).last() == headers@[i as int]@);
            assert(out@ =~= seq![0x00u8, 0x00u8] + lines_encoding(hs.take(i + 1), line));
        }
        i = i + 1;
    }
    assert(hs.take(headers@.len() as int) =~= hs);
    out
}

/// The bytes of a field section that may use the dynamic table.
fn dynamic_section(table: &DynamicTable, max_table_capacity: u64, headers: &[Header], use_huffman: bool) -> (r: (Vec<u8>, u64))
    requires
        table_wf(table@),
    ensures
        r.0@ == dynamic_section_encoding(table@, max_table_capacity, views_of(headers@), use_huffman),
        r.1 == required_insert_count(table@, views_of(headers@)),
{
    let ghost hs = views_of(headers@);
    let mut ric: u64 = 0;
    let mut i: usize = 0;
    proof {
        assert(hs.take(0) =~= Seq::<HeaderView>::empty());
    }
    while i < headers.len()
        invariant
            i <= headers.len(),
            table_wf(table@),
            hs == views_of(headers@),
            ric == required_insert_count(table@, hs.take(i as int)),
        decreases headers.len() - i,
    {
        let h = &headers[i];
        let (_, name_only) = table.find_entry(h.name(), h.value());
        proof {
            lemma_find_bound(table@, h@.name, h@.value);
            assert(hs.take(i + 1).drop_last() =~= hs.take(i as int));
            assert(hs.take(i + 1).last() == h@);
        }
        match name_only {
            Some(a) => {
                if a + 1 > ric {
                    ric = a + 1;
                }
            },
            None => {},
        }
        i = i + 1;
    }
    assert(hs.take(headers@.len() as int) =~= hs);
    let enc_ric = ric_value(ric, max_table_capacity);
    let mut out: Vec<u8> = Vec::new();
    encode_integer_to_vec(&mut out, enc_ric, 8, 0x00);
    out.push(0x00);
    let ghost line = dynamic_line_fn(table@, ric, use_huffman);
    let ghost head = out@;
    let mut j: usize = 0;
    assert(out@ =~= head + lines_encoding(hs.take(0), line));
    while j < headers.len()
        invariant
            j <= headers.len(),
            hs == views_of(headers@),
            line == dynamic_line_fn(table@, ric, use_huffman),
            out@ == head + lines_encoding(hs.take(j as int), line),
        decreases headers.len() - j,
    {
        push_dynamic_line(&mut out, table, ric, &headers[j], use_huffman);
        proof {
            assert(hs.take(j + 1).drop_last() =~= hs.take(j as int));
            assert(hs.take(j + 1).last() == headers@[j as int]@);
            assert(out@ =~= head + lines_encoding(hs.take(j + 1), line));
        }
        j = j + 1;
    }
    proof {
        assert(hs.take(headers@.len() as int) =~= hs);
        assert(out@ =~= dynamic_section_encoding(table@, max_table_capacity, hs, use_huffman));
    }
    (out, ric)
}

/// `after` is `before` with `s` written at its start and `r` the length of
/// `s`, where `s` fits; `before` unchanged and `r` `None` where it does not.
pub open spec fn written(s: Seq<u8>, before: Seq<u8>, after: Seq<u8>, r: Option<usize>) -> bool {
    &&& s.len() <= before.len() ==> r == Some(s.len() as usize) && after == s + before.skip(s.len() as int)
    &&& s.len() > before.len() ==> r is None && after == before
}

/// Whether an encoding may use the dynamic table: it has entries, the peer
/// allows a table, and fewer streams than the peer's limit may block.
pub open spec fn may_use_dynamic(v: DynamicEncoderView, blocked_streams_count: usize) -> bool {
    v.table.entries.len() > 0 && v.max_table_capacity != 0 && (blocked_streams_count as u64) < v.peer_max_blocked_streams
}

/// The bytes `encode` produces.
pub open spec fn section_encoding(v: DynamicEncoderView, hs: Seq<HeaderView>, blocked_streams_count: usize) -> Seq<u8> {
    if may_use_dynamic(v, blocked_streams_count) {
        dynamic_section_encoding(v.table, v.max_table_capacity, hs, v.use_huffman)
    } else {
        static_section_encoding(hs, v.use_huffman)
    }
}

impl DynamicEncoder {
    /// Encodes `headers` as a field section at the start of `buf`; returns
    /// its length, or `None`, with `buf` untouched, where it does not fit.
    /// The dynamic table is used only where it has entries, the peer allows
    /// a table, and fewer than the peer's limit of streams may block
    /// (`blocked_streams_count`, Section 2.1.2); Base is then the Required
    /// Insert Count, which is recorded.
    pub fn encode(&mut self, buf: &mut [u8], headers: &[Header], blocked_streams_count: usize) -> (r: Option<usize>)
        requires
            encoder_wf(old(self)@),
        ensures
            written(section_encoding(old(self)@, views_of(headers@), blocked_streams_count), old(buf)@, final(buf)@, r),
            final(self)@ == (DynamicEncoderView {
                last_required_insert_count: if may_use_dynamic(old(self)@, blocked_streams_count) {
                    required_insert_count(old(self)@.table, views_of(headers@)) as u64
                } else {
                    0
                },
                ..old(self)@
            }),
            encoder_wf(final(self)@),
    {
        if self.table.is_empty() || self.max_table_capacity == 0
            || blocked_streams_count as u64 >= self.peer_max_blocked_streams {
            self.last_required_insert_count = 0;
            let bytes = static_section(headers, self.use_huffman);
            return write_all(buf, bytes.as_slice());
        }
        self.encode_with_dynamic(buf, headers)
    }

    /// Encodes `headers` as a field section that may refer to the dynamic
    /// table, with Base equal to the Required Insert Count, which is
    /// recorded; `None`, with `buf` untouched, where it does not fit.
    pub fn encode_with_dynamic(&mut self, buf: &mut [u8], headers: &[Header]) -> (r: Option<usize>)
        requires
            encoder_wf(old(self)@),
        ensures
            written(
                dynamic_section_encoding(old(self)@.table, old(self)@.max_table_capacity, views_of(headers@), old(self)@.use_huffman),
                old(buf)@,
                final(buf)@,
                r,
            ),
            final(self)@ == (DynamicEncoderView {
                last_required_insert_count: required_insert_count(old(self)@.table, views_of(headers@)) as u64,
                ..old(self)@
            }),
            encoder_wf(final(self)@),
    {
        let (bytes, ric) = dynamic_section(&self.table, self.max_table_capacity, headers, self.use_huffman);
        self.last_required_insert_count = ric;
        write_all(buf, bytes.as_slice())
    }

    /// The encoded form of Required Insert Count `req_insert_count`
    /// (Section 4.5.1.1): 0 for 0, else its remainder modulo twice the
    /// peer's maximum entry count, plus one; 0 where the peer allows no
    /// table.
    pub fn encode_required_insert_count(&self, req_insert_count: u64) -> (r: u64)
        ensures
            r == ric_encoding(req_insert_count as nat, self@.max_table_capacity),
    {
        ric_value(req_insert_count, self.max_table_capacity)
    }

    /// Writes an Indexed Field Line for the dynamic entry at
    /// `absolute_index` against `base` at the start of `buf`.
    pub fn encode_indexed_field_dynamic(&self, buf: &mut [u8], absolute_index: u64, base: u64) -> (r: Option<usize>)
        ensures
            written(dynamic_indexed_line(absolute_index, base), old(buf)@, final(buf)@, r),
    {
        let mut out: Vec<u8> = Vec::new();
        push_dynamic_indexed(&mut out, absolute_index, base);
        assert(out@ =~= dynamic_indexed_line(absolute_index, base));
        write_all(buf, out.as_slice())
    }

    /// Writes a Literal Field Line with the name of the dynamic entry at
    /// `absolute_index` against `base`, and `value`, at the start of `buf`.
    pub fn encode_literal_with_name_ref_dynamic(
        &self,
        buf: &mut [u8],
        absolute_index: u64,
        value: &[u8],
        base: u64,
        never_indexed: bool,
    ) -> (r: Option<usize>)
        ensures
            written(dynamic_name_line(absolute_index, base, value@, never_indexed, self@.use_huffman), old(buf)@, final(buf)@, r),
    {
        let mut out: Vec<u8> = Vec::new();
        push_dynamic_name(&mut out, absolute_index, base, value, never_indexed, self.use_huffman);
        assert(out@ =~= dynamic_name_line(absolute_index, base, value@, never_indexed, self.use_huffman));
        write_all(buf, out.as_slice())
    }

    /// Inserts an entry into the dynamic table.
    pub fn insert(&mut self, name: Vec<u8>, value: Vec<u8>) -> (r: Option<u64>)
        requires
            encoder_wf(old(self)@),
        ensures
            (final(self)@.table, r) == insert_outcome(old(self)@.table, name@, value@),
            final(self)@ == (DynamicEncoderView { table: final(self)@.table, ..old(self)@ }),
            encoder_wf(final(self)@),
    {
        self.table.insert(name, value)
    }

    /// Inserts `value` under the name of static entry `name_index`; `None`
    /// past the static table.
    pub fn insert_with_static_name_ref(&mut self, name_index: usize, value: Vec<u8>) -> (r: Option<u64>)
        requires
            encoder_wf(old(self)@),
        ensures
            name_index >= STATIC_TABLE_LEN ==> r is None && final(self)@ == old(self)@,
            name_index < STATIC_TABLE_LEN ==> (final(self)@.table, r) == insert_outcome(
                old(self)@.table,
                static_name(name_index as int),
                value@,
            ),
            final(self)@ == (DynamicEncoderView { table: final(self)@.table, ..old(self)@ }),
            encoder_wf(final(self)@),
    {
        let name = match get_static_entry(name_index) {
            Some(h) => {
                let mut n: Vec<u8> = Vec::new();
                crate::bytes_be::append_bytes(&mut n, h.name());
                n
            },
            None => return None,
        };
        self.table.insert(name, value)
    }

    /// Inserts `value` under the name of the entry at position
    /// `relative_index` from the newest; `None` where there is none.
    pub fn insert_with_dynamic_name_ref(&mut self, relative_index: u64, value: Vec<u8>) -> (r: Option<u64>)
        requires
            encoder_wf(old(self)@),
        ensures
            match entry_at_relative(old(self)@.table, relative_index) {
                Some(e) => (final(self)@.table, r) == insert_outcome(old(self)@.table, e.name, value@),
                None => r is None && final(self)@ == old(self)@,
            },
            final(self)@ == (DynamicEncoderView { table: final(self)@.table, ..old(self)@ }),
            encoder_wf(final(self)@),
    {
        let name = match self.table.get_by_relative_index_encoder(relative_index) {
            Some(e) => e.name.clone(),
            None => return None,
        };
        self.table.insert(name, value)
    }
}

/// Section Acknowledgments release a stream's sections in the order they
/// were sent (Section 4.4.1): on a stream with nothing outstanding, after
/// sections with Required Insert Counts `r1` then `r2`, the first
/// acknowledgment raises the known received count to at least `r1`, not
/// `r2`, and leaves `r2` outstanding; after a single section, its
/// acknowledgment leaves the outstanding sections as they were before it.
pub proof fn lemma_acks_in_order(v: DynamicEncoderView, id: u64, r1: u64, r2: u64)
    requires
        encoder_wf(v),
        unacked_index(v.unacked, id) == -1,
    ensures
        ({
            let v1 = DynamicEncoderView { unacked: with_section(v.unacked, id, r1), ..v };
            let v2 = DynamicEncoderView { unacked: with_section(v1.unacked, id, r2), ..v };
            let k1 = if r1 > v.known_received_count {
                r1
            } else {
                v.known_received_count
            };
            &&& acked(v1, id).unacked == v.unacked
            &&& acked(v1, id).known_received_count == k1
            &&& acked(v2, id).known_received_count == k1
            &&& acked(v2, id).unacked == v.unacked.push((id, seq![r2]))
        }),
{
    let u = v.unacked;
    let u1 = with_section(u, id, r1);
    assert(u1 == u.push((id, seq![r1])));
    assert(u1[u.len() as int].0 == id);
    assert forall|i: int| 0 <= i < u1.len() && u1[i].0 == id implies i == u.len() by {
        if i < u.len() {
            assert(u[i].0 == id);
        }
    }
    assert(unacked_index(u1, id) == u.len());
    let u2 = with_section(u1, id, r2);
    assert(u2 == u.push((id, seq![r1, r2]))) by {
        assert(seq![r1].push(r2) =~= seq![r1, r2]);
        assert(u1[u.len() as int].1 == seq![r1]);
        assert(u1.update(u.len() as int, (id, seq![r1, r2])) =~= u.push((id, seq![r1, r2])));
    }
    assert(u2[u.len() as int].0 == id);
    assert forall|i: int| 0 <= i < u2.len() && u2[i].0 == id implies i == u.len() by {
        if i < u.len() {
            assert(u[i].0 == id);
        }
    }
    assert(unacked_index(u2, id) == u.len());
    assert(u1.remove(u.len() as int) =~= u);
    assert(seq![r1, r2].drop_first() =~= seq![r2]);
    assert(u2.update(u.len() as int, (id, seq![r2])) =~= u.push((id, seq![r2])));
}

} // verus!
