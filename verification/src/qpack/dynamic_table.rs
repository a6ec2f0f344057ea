//! The QPACK dynamic table (RFC 9204 Section 3.2): entries in insertion
//! order, the newest first, evicted oldest first to stay within capacity.
//! An entry takes 32 bytes plus the lengths of its name and value
//! (Section 3.2.1).

use vstd::prelude::*;
use std::collections::VecDeque;
use crate::qpack::header::Header;
use crate::bytes_be::append_bytes;

verus! {

/// The bytes an entry takes beyond its name and value.
pub const ENTRY_OVERHEAD: u64 = 32;

/// A dynamic table entry.
#[derive(Debug, Clone, PartialEq, Eq)]
pub struct DynamicEntry {
    /// The field name.
    pub name: Vec<u8>,
    /// The field value.
    pub value: Vec<u8>,
    /// The absolute index, given at insertion.
    pub absolute_index: u64,
}

/// The abstract value of an entry.
pub struct DynamicEntryView {
    /// The field name.
    pub name: Seq<u8>,
    /// The field value.
    pub value: Seq<u8>,
    /// The absolute index.
    pub absolute_index: u64,
}

impl View for DynamicEntry {
    type V = DynamicEntryView;

    open spec fn view(&self) -> DynamicEntryView {
        DynamicEntryView { name: self.name@, value: self.value@, absolute_index: self.absolute_index }
    }
}

/// The size of an entry with this name and value.
pub open spec fn entry_size(name: Seq<u8>, value: Seq<u8>) -> nat {
    32 + name.len() + value.len()
}

impl DynamicEntry {
    /// An entry.
    pub fn new(name: Vec<u8>, value: Vec<u8>, absolute_index: u64) -> (r: DynamicEntry)
        ensures
            r@ == (DynamicEntryView { name: name@, value: value@, absolute_index }),
    {
        DynamicEntry { name, value, absolute_index }
    }

    /// The size of the entry: 32 plus the name and value lengths.
    pub fn size(&self) -> (r: u64)
        requires
            entry_size(self.name@, self.value@) <= u64::MAX,
        ensures
            r == entry_size(self.name@, self.value@),
    {
        ENTRY_OVERHEAD + self.name.len() as u64 + self.value.len() as u64
    }
}

/// The abstract state of a dynamic table.
pub struct DynamicTableView {
    /// The entries, newest first.
    pub entries: Seq<DynamicEntryView>,
    /// The capacity in bytes.
    pub max_capacity: u64,
    /// The bytes the entries take.
    pub current_size: u64,
    /// Entries ever inserted: the next absolute index.
    pub insert_count: u64,
    /// Entries evicted or cleared.
    pub dropped_count: u64,
    /// Entries with absolute index below this are not evicted (Section 2.1.1).
    pub eviction_limit: u64,
}

/// The bytes a run of entries takes.
pub open spec fn entries_size(s: Seq<DynamicEntryView>) -> nat
    decreases s.len(),
{
    if s.len() == 0 {
        0
    } else {
        entry_size(s.last().name, s.last().value) + entries_size(s.drop_last())
    }
}

/// The table's internal consistency: the entries are the inserted ones not
/// yet dropped, numbered down from the newest, and the size is their total.
pub open spec fn table_wf(v: DynamicTableView) -> bool {
    &&& v.dropped_count <= v.insert_count
    &&& v.entries.len() == v.insert_count - v.dropped_count
    &&& forall|i: int| 0 <= i < v.entries.len() ==> #[trigger] v.entries[i].absolute_index == v.insert_count - 1 - i
    &&& v.current_size == entries_size(v.entries)
}

/// A table without its oldest entry.
pub open spec fn without_oldest(v: DynamicTableView) -> DynamicTableView {
    DynamicTableView {
        entries: v.entries.drop_last(),
        current_size: (v.current_size - entry_size(v.entries.last().name, v.entries.last().value)) as u64,
        dropped_count: (v.dropped_count + 1) as u64,
        ..v
    }
}

/// A table after evicting, oldest first, until `required` more bytes fit,
/// stopping at an entry the eviction limit protects.
pub open spec fn evicted(v: DynamicTableView, required: nat) -> DynamicTableView
    decreases v.entries.len(),
{
    if v.current_size + required > v.max_capacity && v.entries.len() > 0
        && v.entries.last().absolute_index >= v.eviction_limit {
        evicted(without_oldest(v), required)
    } else {
        v
    }
}

/// What inserting an entry does: the new table and the entry's absolute
/// index, or `None` where it cannot fit (evictions made on the way stay).
pub open spec fn insert_outcome(v: DynamicTableView, name: Seq<u8>, value: Seq<u8>) -> (DynamicTableView, Option<u64>) {
    let sz = entry_size(name, value);
    if v.insert_count == u64::MAX || sz > v.max_capacity {
        (v, None)
    } else {
        let w = evicted(v, sz);
        if w.current_size + sz > w.max_capacity {
            (w, None)
        } else {
            (
                DynamicTableView {
                    entries: seq![DynamicEntryView { name, value, absolute_index: w.insert_count }] + w.entries,
                    current_size: (w.current_size + sz) as u64,
                    insert_count: (w.insert_count + 1) as u64,
                    ..w
                },
                Some(w.insert_count),
            )
        }
    }
}

/// The entry with absolute index `a`, if the table holds it.
pub open spec fn entry_at_absolute(v: DynamicTableView, a: u64) -> Option<DynamicEntryView> {
    if a < v.dropped_count || a >= v.insert_count {
        None
    } else {
        Some(v.entries[v.insert_count - 1 - a])
    }
}

/// The entry at position `i` counting from the newest, if any.
pub open spec fn entry_at_relative(v: DynamicTableView, i: u64) -> Option<DynamicEntryView> {
    if i < v.entries.len() {
        Some(v.entries[i as int])
    } else {
        None
    }
}

/// Whether position `i` is the first (newest) entry named `name` with
/// value `value`.
pub open spec fn is_first_exact(s: Seq<DynamicEntryView>, name: Seq<u8>, value: Seq<u8>, i: int) -> bool {
    &&& 0 <= i < s.len()
    &&& s[i].name == name && s[i].value == value
    &&& forall|j: int| 0 <= j < i ==> !(s[j].name == name && s[j].value == value)
}

/// Whether position `i` is the first (newest) entry named `name`.
pub open spec fn is_first_name(s: Seq<DynamicEntryView>, name: Seq<u8>, i: int) -> bool {
    &&& 0 <= i < s.len()
    &&& s[i].name == name
    &&& forall|j: int| 0 <= j < i ==> s[j].name != name
}

/// The absolute index of the newest entry holding `name` and `value`.
pub open spec fn dynamic_exact(v: DynamicTableView, name: Seq<u8>, value: Seq<u8>) -> Option<u64> {
    if exists|i: int| is_first_exact(v.entries, name, value, i) {
        Some(v.entries[choose|i: int| is_first_exact(v.entries, name, value, i)].absolute_index)
    } else {
        None
    }
}

/// The absolute index of the newest entry named `name`.
pub open spec fn dynamic_name(v: DynamicTableView, name: Seq<u8>) -> Option<u64> {
    if exists|i: int| is_first_name(v.entries, name, i) {
        Some(v.entries[choose|i: int| is_first_name(v.entries, name, i)].absolute_index)
    } else {
        None
    }
}

/// What `find_entry` returns: the newest exact match for both, else no
/// exact match and the newest entry with the name.
pub open spec fn find_outcome(v: DynamicTableView, name: Seq<u8>, value: Seq<u8>) -> (Option<u64>, Option<u64>) {
    match dynamic_exact(v, name, value) {
        Some(a) => (Some(a), Some(a)),
        None => (None, dynamic_name(v, name)),
    }
}

/// Eviction keeps the counters it does not touch.
proof fn lemma_evicted_keeps(v: DynamicTableView, required: nat)
    ensures
        evicted(v, required).insert_count == v.insert_count,
        evicted(v, required).max_capacity == v.max_capacity,
        evicted(v, required).eviction_limit == v.eviction_limit,
    decreases v.entries.len(),
{
    if v.current_size + required > v.max_capacity && v.entries.len() > 0
        && v.entries.last().absolute_index >= v.eviction_limit {
        lemma_evicted_keeps(without_oldest(v), required);
    }
}

/// Pushing an entry in front adds its size.
proof fn lemma_entries_size_push_front(e: DynamicEntryView, s: Seq<DynamicEntryView>)
    ensures
        entries_size(seq![e] + s) == entry_size(e.name, e.value) + entries_size(s),
    decreases s.len(),
{
    let t = seq![e] + s;
    if s.len() == 0 {
        assert(t.drop_last() =~= Seq::<DynamicEntryView>::empty());
        assert(t.last() == e);
        assert(entries_size(t.drop_last()) == 0);
    } else {
        lemma_entries_size_push_front(e, s.drop_last());
        assert(t.drop_last() =~= seq![e] + s.drop_last());
        assert(t.last() == s.last());
    }
}

/// The first position of a match is unique.
proof fn lemma_first_unique(s: Seq<DynamicEntryView>, name: Seq<u8>, value: Seq<u8>, i: int)
    ensures
        is_first_exact(s, name, value, i) ==> (choose|k: int| is_first_exact(s, name, value, k)) == i,
        is_first_name(s, name, i) ==> (choose|k: int| is_first_name(s, name, k)) == i,
{
    if is_first_exact(s, name, value, i) {
        let k = choose|k: int| is_first_exact(s, name, value, k);
        assert(is_first_exact(s, name, value, k));
        if k < i {
            assert(!(s[k].name == name && s[k].value == value));
        }
        if k > i {
            assert(!(s[i].name == name && s[i].value == value));
        }
    }
    if is_first_name(s, name, i) {
        let k = choose|k: int| is_first_name(s, name, k);
        assert(is_first_name(s, name, k));
        if k < i {
            assert(s[k].name != name);
        }
        if k > i {
            assert(s[i].name != name);
        }
    }
}

/// Eviction keeps a table consistent.
proof fn lemma_evicted_wf(v: DynamicTableView, required: nat)
    requires
        table_wf(v),
    ensures
        table_wf(evicted(v, required)),
    decreases v.entries.len(),
{
    if v.current_size + required > v.max_capacity && v.entries.len() > 0
        && v.entries.last().absolute_index >= v.eviction_limit {
        let w = without_oldest(v);
        assert(entries_size(v.entries) == entry_size(v.entries.last().name, v.entries.last().value) + entries_size(
            v.entries.drop_last(),
        ));
        assert forall|i: int| 0 <= i < w.entries.len() implies #[trigger] w.entries[i].absolute_index == w.insert_count
            - 1 - i by {
            assert(w.entries[i] == v.entries[i]);
        }
        assert(table_wf(w));
        lemma_evicted_wf(w, required);
    }
}

/// After an insert succeeds, the entry stands at the absolute index it was
/// given, as the newest entry, and a search for its name and value finds it
/// there.
pub proof fn lemma_insert_then_find(v: DynamicTableView, name: Seq<u8>, value: Seq<u8>)
    requires
        table_wf(v),
        insert_outcome(v, name, value).1 is Some,
    ensures
        ({
            let (w, r) = insert_outcome(v, name, value);
            let e = DynamicEntryView { name, value, absolute_index: v.insert_count };
            &&& r == Some(v.insert_count)
            &&& entry_at_absolute(w, v.insert_count) == Some(e)
            &&& entry_at_relative(w, 0) == Some(e)
            &&& find_outcome(w, name, value) == (Some(v.insert_count), Some(v.insert_count))
        }),
{
    let sz = entry_size(name, value);
    lemma_evicted_keeps(v, sz);
    lemma_evicted_wf(v, sz);
    let (w, r) = insert_outcome(v, name, value);
    let e = DynamicEntryView { name, value, absolute_index: v.insert_count };
    assert(w.entries[0] == e);
    assert(is_first_exact(w.entries, name, value, 0));
    lemma_first_unique(w.entries, name, value, 0);
    assert(w.insert_count - 1 - v.insert_count == 0);
}

/// Eviction drops entries from the oldest end only, takes no size it does
/// not free, and evicts nothing while the room required is already free.
pub(crate) proof fn lemma_evicted_keeps_newest(v: DynamicTableView, required: nat)
    requires
        table_wf(v),
    ensures
        evicted(v, required).entries == v.entries.take(evicted(v, required).entries.len() as int),
        evicted(v, required).entries.len() <= v.entries.len(),
        evicted(v, required).current_size <= v.current_size,
        v.current_size + required <= v.max_capacity ==> evicted(v, required) == v,
    decreases v.entries.len(),
{
    if v.current_size + required > v.max_capacity && v.entries.len() > 0
        && v.entries.last().absolute_index >= v.eviction_limit {
        let w = without_oldest(v);
        assert(entries_size(v.entries) == entry_size(v.entries.last().name, v.entries.last().value) + entries_size(
            v.entries.drop_last(),
        ));
        lemma_evicted_wf(v, 0);
        assert forall|i: int| 0 <= i < w.entries.len() implies #[trigger] w.entries[i].absolute_index == w.insert_count
            - 1 - i by {
            assert(w.entries[i] == v.entries[i]);
        }
        assert(table_wf(w));
        lemma_evicted_keeps_newest(w, required);
        let k = evicted(w, required).entries.len() as int;
        assert(w.entries.take(k) =~= v.entries.take(k));
    } else {
        assert(v.entries.take(v.entries.len() as int) =~= v.entries);
    }
}

/// Where no entry is pinned, eviction frees room until `required` more
/// bytes fit, whenever that is no more than the capacity; the result stays
/// consistent and keeps the newest entries.
pub(crate) proof fn lemma_evicted_fits(v: DynamicTableView, required: nat)
    requires
        table_wf(v),
        v.eviction_limit <= v.dropped_count,
        required <= v.max_capacity,
    ensures
        evicted(v, required).current_size + required <= v.max_capacity,
        evicted(v, required).max_capacity == v.max_capacity,
        table_wf(evicted(v, required)),
        evicted(v, required).entries == v.entries.take(evicted(v, required).entries.len() as int),
    decreases v.entries.len(),
{
    lemma_evicted_wf(v, required);
    lemma_evicted_keeps(v, required);
    lemma_evicted_keeps_newest(v, required);
    if v.current_size + required > v.max_capacity && v.entries.len() > 0 {
        assert(v.entries.last().absolute_index == v.insert_count - 1 - (v.entries.len() - 1));
        let w = without_oldest(v);
        assert(entries_size(v.entries) == entry_size(v.entries.last().name, v.entries.last().value) + entries_size(
            v.entries.drop_last(),
        ));
        assert forall|i: int| 0 <= i < w.entries.len() implies #[trigger] w.entries[i].absolute_index == w.insert_count
            - 1 - i by {
            assert(w.entries[i] == v.entries[i]);
        }
        assert(table_wf(w));
        lemma_evicted_fits(w, required);
    }
}

/// Inserting evicts from the oldest end only: afterwards the entries are
/// the new one, where it fit, followed by the newest of the old entries in
/// their order; nothing is evicted while the new entry fits in the free
/// room; and a consistent table within its capacity stays so.
pub proof fn lemma_insert_evicts_oldest(v: DynamicTableView, name: Seq<u8>, value: Seq<u8>)
    requires
        table_wf(v),
        v.current_size <= v.max_capacity,
    ensures
        ({
            let (w, r) = insert_outcome(v, name, value);
            &&& table_wf(w)
            &&& w.current_size <= w.max_capacity
            &&& r is Some ==> w.entries.len() >= 1 && w.entries[0] == (DynamicEntryView {
                name,
                value,
                absolute_index: v.insert_count,
            }) && w.entries.skip(1) == v.entries.take(w.entries.len() - 1)
            &&& r is None ==> w.entries == v.entries.take(w.entries.len() as int)
            &&& (r is Some && v.current_size + entry_size(name, value) <= v.max_capacity) ==> w.entries.skip(1)
                == v.entries
        }),
{
    let sz = entry_size(name, value);
    if v.insert_count == u64::MAX || sz > v.max_capacity {
        assert(v.entries.take(v.entries.len() as int) =~= v.entries);
    } else {
        lemma_evicted_keeps(v, sz);
        lemma_evicted_wf(v, sz);
        lemma_evicted_keeps_newest(v, sz);
        let ev = evicted(v, sz);
        let (w, r) = insert_outcome(v, name, value);
        if r is Some {
            let e = DynamicEntryView { name, value, absolute_index: v.insert_count };
            assert(w.entries == seq![e] + ev.entries);
            assert(w.entries.skip(1) =~= ev.entries);
            lemma_entries_size_push_front(e, ev.entries);
            assert forall|i: int| 0 <= i < w.entries.len() implies #[trigger] w.entries[i].absolute_index
                == w.insert_count - 1 - i by {
                if i > 0 {
                    assert(w.entries[i] == ev.entries[i - 1]);
                }
            }
        }
    }
}

/// A QPACK dynamic table.
#[derive(Debug)]
pub struct DynamicTable {
    entries: VecDeque<DynamicEntry>,
    max_capacity: u64,
    current_size: u64,
    insert_count: u64,
    dropped_count: u64,
    eviction_limit: u64,
}

impl View for DynamicTable {
    type V = DynamicTableView;

    closed spec fn view(&self) -> DynamicTableView {
        DynamicTableView {
            entries: self.entries@.map_values(|e: DynamicEntry| e@),
            max_capacity: self.max_capacity,
            current_size: self.current_size,
            insert_count: self.insert_count,
            dropped_count: self.dropped_count,
            eviction_limit: self.eviction_limit,
        }
    }
}

impl Default for DynamicTable {
    fn default() -> (r: DynamicTable)
        ensures
            r@ == DynamicTable::empty_view(0),
            table_wf(r@),
    {
        DynamicTable::new()
    }
}

impl DynamicTable {
    /// An empty table of the given capacity.
    pub open spec fn empty_view(capacity: u64) -> DynamicTableView {
        DynamicTableView {
            entries: Seq::empty(),
            max_capacity: capacity,
            current_size: 0,
            insert_count: 0,
            dropped_count: 0,
            eviction_limit: 0,
        }
    }

    /// An empty table of capacity 0.
    pub fn new() -> (r: DynamicTable)
        ensures
            r@ == Self::empty_view(0),
            table_wf(r@),
    {
        Self::with_capacity(0)
    }

    /// An empty table of capacity `capacity`.
    pub fn with_capacity(capacity: u64) -> (r: DynamicTable)
        ensures
            r@ == Self::empty_view(capacity),
            table_wf(r@),
    {
        let r = DynamicTable {
            entries: VecDeque::new(),
            max_capacity: capacity,
            current_size: 0,
            insert_count: 0,
            dropped_count: 0,
            eviction_limit: 0,
        };
        assert(r@.entries =~= Seq::empty());
        r
    }

    /// The capacity.
    pub fn max_capacity(&self) -> (r: u64)
        ensures
            r == self@.max_capacity,
    {
        self.max_capacity
    }

    /// The bytes the entries take.
    pub fn current_size(&self) -> (r: u64)
        ensures
            r == self@.current_size,
    {
        self.current_size
    }

    /// Entries ever inserted: the next absolute index.
    pub fn insert_count(&self) -> (r: u64)
        ensures
            r == self@.insert_count,
    {
        self.insert_count
    }

    /// Entries evicted or cleared.
    pub fn dropped_count(&self) -> (r: u64)
        ensures
            r == self@.dropped_count,
    {
        self.dropped_count
    }

    /// The number of entries.
    pub fn len(&self) -> (r: usize)
        ensures
            r == self@.entries.len(),
    {
        self.entries.len()
    }

    /// Whether the table holds no entry.
    pub fn is_empty(&self) -> (r: bool)
        ensures
            r == (self@.entries.len() == 0),
    {
        self.entries.len() == 0
    }

    /// Protects the entries with absolute index below `limit` from
    /// eviction; the encoder sets it from the unacknowledged field sections
    /// (Section 2.1.1).
    pub fn set_eviction_limit(&mut self, limit: u64)
        ensures
            final(self)@ == (DynamicTableView { eviction_limit: limit, ..old(self)@ }),
    {
        self.eviction_limit = limit;
    }

    /// Sets the capacity and evicts what no longer fits (Section 4.3.1).
    pub fn set_capacity(&mut self, capacity: u64)
        requires
            table_wf(old(self)@),
        ensures
            final(self)@ == evicted(DynamicTableView { max_capacity: capacity, ..old(self)@ }, 0),
            table_wf(final(self)@),
    {
        self.max_capacity = capacity;
        self.evict_to_fit(0);
    }

    /// Evicts oldest first until `required` more bytes fit, stopping at an
    /// entry the eviction limit protects.
    fn evict_to_fit(&mut self, required: u64)
        requires
            table_wf(old(self)@),
        ensures
            final(self)@ == evicted(old(self)@, required as nat),
            table_wf(final(self)@),
    {
        let ghost target = evicted(old(self)@, required as nat);
        let mut done = false;
        while !done
            invariant
                table_wf(self@),
                evicted(self@, required as nat) == target,
                done ==> self@ == target,
            decreases 2 * self@.entries.len() + if done { 0int } else { 1int },
        {
            let n = self.entries.len();
            if (self.current_size as u128) + (required as u128) > (self.max_capacity as u128) && n > 0
                && self.entries[n - 1].absolute_index >= self.eviction_limit {
                let ghost before = self@;
                let last = self.entries.pop_back();
                match last {
                    Some(e) => {
                        proof {
                            assert(self@.entries =~= before.entries.drop_last());
                            assert(e@ == before.entries.last());
                        }
                        let sz = ENTRY_OVERHEAD + e.name.len() as u64 + e.value.len() as u64;
                        self.current_size = self.current_size - sz;
                        self.dropped_count = self.dropped_count + 1;
                        proof {
                            assert(self@ == without_oldest(before));
                            assert forall|i: int| 0 <= i < self@.entries.len() implies #[trigger] self@.entries[i].absolute_index
                                == self@.insert_count - 1 - i by {
                                assert(self@.entries[i] == before.entries[i]);
                            }
                        }
                    },
                    None => {},
                }
            } else {
                done = true;
            }
        }
    }

    /// Inserts an entry as the newest (Section 3.2.2), evicting the oldest
    /// to make room; returns its absolute index, or `None` where it cannot
    /// fit (larger than the capacity, or protected entries stand in the way).
    pub fn insert(&mut self, name: Vec<u8>, value: Vec<u8>) -> (r: Option<u64>)
        requires
            table_wf(old(self)@),
        ensures
            (final(self)@, r) == insert_outcome(old(self)@, name@, value@),
            table_wf(final(self)@),
    {
        let sz128: u128 = 32u128 + (name.len() as u128) + (value.len() as u128);
        if self.insert_count == u64::MAX || sz128 > (self.max_capacity as u128) {
            return None;
        }
        let sz = sz128 as u64;
        proof {
            lemma_evicted_keeps(self@, sz as nat);
        }
        self.evict_to_fit(sz);
        if (self.current_size as u128) + (sz as u128) > (self.max_capacity as u128) {
            return None;
        }
        let ghost before = self@;
        let absolute_index = self.insert_count;
        let entry = DynamicEntry::new(name, value, absolute_index);
        self.entries.push_front(entry);
        self.current_size = self.current_size + sz;
        self.insert_count = self.insert_count + 1;
        proof {
            let ev = DynamicEntryView { name: name@, value: value@, absolute_index };
            assert(self@.entries =~= seq![ev] + before.entries);
            lemma_entries_size_push_front(ev, before.entries);
            assert forall|i: int| 0 <= i < self@.entries.len() implies #[trigger] self@.entries[i].absolute_index
                == self@.insert_count - 1 - i by {
                if i > 0 {
                    assert(self@.entries[i] == before.entries[i - 1]);
                }
            }
        }
        Some(absolute_index)
    }

    /// Inserts `value` under the name of a static table entry or of the
    /// dynamic entry with absolute index `name_index` (Section 4.3.2).
    pub fn insert_with_name_ref(&mut self, name_index: u64, is_static: bool, value: Vec<u8>, static_table: &[Header]) -> (r: Option<u64>)
        requires
            table_wf(old(self)@),
        ensures
            table_wf(final(self)@),
            is_static ==> (if name_index < static_table@.len() {
                (final(self)@, r) == insert_outcome(old(self)@, static_table@[name_index as int]@.name, value@)
            } else {
                r is None && final(self)@ == old(self)@
            }),
            !is_static ==> match entry_at_absolute(old(self)@, name_index) {
                Some(e) => (final(self)@, r) == insert_outcome(old(self)@, e.name, value@),
                None => r is None && final(self)@ == old(self)@,
            },
    {
        let name = if is_static {
            if name_index >= static_table.len() as u64 {
                return None;
            }
            let mut n: Vec<u8> = Vec::new();
            append_bytes(&mut n, static_table[name_index as usize].name());
            n
        } else {
            match self.get_by_absolute_index(name_index) {
                Some(e) => e.name.clone(),
                None => return None,
            }
        };
        self.insert(name, value)
    }

    /// Inserts a copy of the entry at position `relative_index` from the
    /// newest (Section 4.3.4).
    pub fn duplicate(&mut self, relative_index: u64) -> (r: Option<u64>)
        requires
            table_wf(old(self)@),
        ensures
            table_wf(final(self)@),
            match entry_at_relative(old(self)@, relative_index) {
                Some(e) => (final(self)@, r) == insert_outcome(old(self)@, e.name, e.value),
                None => r is None && final(self)@ == old(self)@,
            },
    {
        let (name, value) = match self.get_by_relative_index_encoder(relative_index) {
            Some(e) => (e.name.clone(), e.value.clone()),
            None => return None,
        };
        self.insert(name, value)
    }

    /// The entry with absolute index `absolute_index`.
    pub fn get_by_absolute_index(&self, absolute_index: u64) -> (r: Option<&DynamicEntry>)
        requires
            table_wf(self@),
        ensures
            match entry_at_absolute(self@, absolute_index) {
                Some(e) => r matches Some(x) && x@ == e,
                None => r is None,
            },
    {
        if absolute_index < self.dropped_count || absolute_index >= self.insert_count {
            return None;
        }
        let off = self.insert_count - 1 - absolute_index;
        if off >= self.entries.len() as u64 {
            return None;
        }
        let offset = off as usize;
        assert(self@.entries[offset as int] == self.entries@[offset as int]@);
        Some(&self.entries[offset])
    }

    /// The entry at position `relative_index` from the newest, as encoder
    /// instructions count (Section 3.2.5).
    pub fn get_by_relative_index_encoder(&self, relative_index: u64) -> (r: Option<&DynamicEntry>)
        ensures
            match entry_at_relative(self@, relative_index) {
                Some(e) => r matches Some(x) && x@ == e,
                None => r is None,
            },
    {
        if relative_index >= self.entries.len() as u64 {
            return None;
        }
        assert(self@.entries[relative_index as int] == self.entries@[relative_index as int]@);
        Some(&self.entries[relative_index as usize])
    }

    /// The entry at relative index `relative_index` from `base`, as field
    /// lines count: absolute index `base - relative_index - 1` (Section 3.2.5).
    pub fn get_by_relative_index_repr(&self, relative_index: u64, base: u64) -> (r: Option<&DynamicEntry>)
        requires
            table_wf(self@),
        ensures
            relative_index >= base ==> r is None,
            relative_index < base ==> match entry_at_absolute(self@, (base - relative_index - 1) as u64) {
                Some(e) => r matches Some(x) && x@ == e,
                None => r is None,
            },
    {
        if relative_index >= base {
            return None;
        }
        self.get_by_absolute_index(base - relative_index - 1)
    }

    /// The entry at post-base index `post_base_index`: absolute index
    /// `base + post_base_index` (Section 3.2.6); `None` where that sum
    /// leaves the 64-bit range.
    pub fn get_by_post_base_index(&self, post_base_index: u64, base: u64) -> (r: Option<&DynamicEntry>)
        requires
            table_wf(self@),
        ensures
            base + post_base_index > u64::MAX ==> r is None,
            base + post_base_index <= u64::MAX ==> match entry_at_absolute(self@, (base + post_base_index) as u64) {
                Some(e) => r matches Some(x) && x@ == e,
                None => r is None,
            },
    {
        match base.checked_add(post_base_index) {
            Some(a) => self.get_by_absolute_index(a),
            None => None,
        }
    }

    /// Searches for `name` and `value`, newest first: the newest exact
    /// match for both components, or no exact match and the newest entry
    /// with the name.
    pub fn find_entry(&self, name: &[u8], value: &[u8]) -> (r: (Option<u64>, Option<u64>))
        ensures
            r == find_outcome(self@, name@, value@),
    {
        let ghost s = self@.entries;
        let mut name_match: Option<u64> = None;
        let ghost mut name_pos: int = -1;
        let mut i: usize = 0;
        while i < self.entries.len()
            invariant
                i <= self.entries.len(),
                s == self@.entries,
                s.len() == self.entries@.len(),
                forall|j: int| 0 <= j < i ==> !(s[j].name == name@ && s[j].value == value@),
                match name_match {
                    Some(a) => is_first_name(s, name@, name_pos) && name_pos < i && s[name_pos].absolute_index == a,
                    None => forall|j: int| 0 <= j < i ==> s[j].name != name@,
                },
            decreases self.entries.len() - i,
        {
            let e = &self.entries[i];
            assert(e@ == s[i as int]);
            if crate::qpack::header::bytes_eq(e.name.as_slice(), name) {
                if crate::qpack::header::bytes_eq(e.value.as_slice(), value) {
                    proof {
                        assert(is_first_exact(s, name@, value@, i as int));
                        lemma_first_unique(s, name@, value@, i as int);
                    }
                    return (Some(e.absolute_index), Some(e.absolute_index));
                }
                if name_match.is_none() {
                    name_match = Some(e.absolute_index);
                    proof {
                        name_pos = i as int;
                    }
                }
            }
            i = i + 1;
        }
        proof {
            assert(!exists|k: int| is_first_exact(s, name@, value@, k));
            match name_match {
                Some(a) => {
                    lemma_first_unique(s, name@, value@, name_pos);
                },
                None => {
                    assert(!exists|k: int| is_first_name(s, name@, k));
                },
            }
        }
        (None, name_match)
    }

    /// Drops every entry.
    pub fn clear(&mut self)
        requires
            table_wf(old(self)@),
        ensures
            final(self)@ == (DynamicTableView {
                entries: Seq::empty(),
                current_size: 0,
                dropped_count: old(self)@.insert_count,
                ..old(self)@
            }),
            table_wf(final(self)@),
    {
        self.dropped_count = self.dropped_count + self.entries.len() as u64;
        self.entries.clear();
        self.current_size = 0;
        assert(self@.entries =~= Seq::<DynamicEntryView>::empty());
    }

    /// The entries, newest first.
    pub fn iter(&self) -> (r: Vec<&DynamicEntry>)
        ensures
            r@.len() == self@.entries.len(),
            forall|i: int| 0 <= i < r@.len() ==> r@[i]@ == #[trigger] self@.entries[i],
    {
        let mut out: Vec<&DynamicEntry> = Vec::new();
        let mut i: usize = 0;
        while i < self.entries.len()
            invariant
                i <= self.entries.len(),
                out@.len() == i,
                self@.entries == self.entries@.map_values(|e: DynamicEntry| e@),
                forall|j: int| 0 <= j < i ==> out@[j]@ == #[trigger] self@.entries[j],
            decreases self.entries.len() - i,
        {
            out.push(&self.entries[i]);
            i = i + 1;
        }
        out
    }
}

} // verus!
