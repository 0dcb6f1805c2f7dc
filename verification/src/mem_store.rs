use vstd::prelude::*;
use std::collections::HashMap;
use std::sync::Arc;
use crate::errors::Error;
use crate::log::{share_log, Log, LogStore};
use crate::stable::StableStore;
use crate::Bytes;

verus! {

broadcast use vstd::std_specs::hash::group_hash_axioms;

/// The map an association list stands for: a later entry for a key hides the
/// earlier ones.
pub open spec fn assoc_view<V: View>(entries: Seq<(String, V)>) -> Map<Seq<char>, V::V>
    decreases entries.len(),
{
    if entries.len() == 0 {
        Map::empty()
    } else {
        assoc_view(entries.drop_last()).insert(entries.last().0@, entries.last().1@)
    }
}

/// `i` is the last entry for `key`.
pub open spec fn is_last_entry<V>(entries: Seq<(String, V)>, key: Seq<char>, i: int) -> bool {
    &&& 0 <= i < entries.len()
    &&& entries[i].0@ == key
    &&& forall|j: int| i < j < entries.len() ==> entries[j].0@ != key
}

proof fn lemma_assoc_last_entry<V: View>(entries: Seq<(String, V)>, key: Seq<char>, i: int)
    requires
        is_last_entry(entries, key, i),
    ensures
        assoc_view(entries).contains_key(key),
        assoc_view(entries)[key] == entries[i].1@,
    decreases entries.len(),
{
    if i < entries.len() - 1 {
        let front = entries.drop_last();
        assert(is_last_entry(front, key, i)) by {
            assert forall|j: int| i < j < front.len() implies front[j].0@ != key by {
                assert(front[j] == entries[j]);
            }
        }
        lemma_assoc_last_entry(front, key, i);
    }
}

proof fn lemma_assoc_no_entry<V: View>(entries: Seq<(String, V)>, key: Seq<char>)
    requires
        forall|j: int| 0 <= j < entries.len() ==> entries[j].0@ != key,
    ensures
        !assoc_view(entries).contains_key(key),
    decreases entries.len(),
{
    if entries.len() > 0 {
        let front = entries.drop_last();
        assert forall|j: int| 0 <= j < front.len() implies front[j].0@ != key by {
            assert(front[j] == entries[j]);
        }
        lemma_assoc_no_entry(front, key);
    }
}

proof fn lemma_assoc_update<V: View>(entries: Seq<(String, V)>, i: int, e: (String, V))
    requires
        is_last_entry(entries, e.0@, i),
    ensures
        assoc_view(entries.update(i, e)) == assoc_view(entries).insert(e.0@, e.1@),
    decreases entries.len(),
{
    let updated = entries.update(i, e);
    let front = entries.drop_last();
    if i == entries.len() - 1 {
        assert(updated.drop_last() =~= front);
        assert(assoc_view(updated) =~= assoc_view(entries).insert(e.0@, e.1@));
    } else {
        assert(updated.drop_last() =~= front.update(i, e));
        assert(is_last_entry(front, e.0@, i)) by {
            assert forall|j: int| i < j < front.len() implies front[j].0@ != e.0@ by {
                assert(front[j] == entries[j]);
            }
        }
        lemma_assoc_update(front, i, e);
        assert(entries.last().0@ != e.0@);
        assert(assoc_view(updated) =~= assoc_view(entries).insert(e.0@, e.1@));
    }
}

/// Position of the last entry for `key`.
fn find_last_entry<V: View>(entries: &Vec<(String, V)>, key: &String) -> (r: Option<usize>)
    ensures
        match r {
            Some(i) => is_last_entry(entries@, key@, i as int),
            None => forall|j: int| 0 <= j < entries@.len() ==> entries@[j].0@ != key@,
        },
{
    let mut i = entries.len();
    while i > 0
        invariant
            i <= entries@.len(),
            forall|j: int| i <= j < entries@.len() ==> entries@[j].0@ != key@,
        decreases i,
    {
        i = i - 1;
        if entries[i].0 == *key {
            return Some(i);
        }
    }
    None
}

/// Sets `key` to `val` in the association list.
fn assoc_set<V: View>(entries: &mut Vec<(String, V)>, key: String, val: V)
    ensures
        assoc_view(final(entries)@) == assoc_view(old(entries)@).insert(key@, val@),
{
    match find_last_entry(entries, &key) {
        Some(i) => {
            proof {
                lemma_assoc_update(entries@, i as int, (key, val));
            }
            entries.set(i, (key, val));
        },
        None => {
            let ghost before = entries@;
            entries.push((key, val));
            assert(entries@.drop_last() =~= before);
        },
    }
}

/// `String::from_utf8`: the bytes as a string when they are valid UTF-8.
#[verifier::external_body]
fn string_from_utf8(bytes: Vec<u8>) -> (r: Result<String, std::string::FromUtf8Error>)
    ensures
        match r {
            Ok(s) => vstd::utf8::valid_utf8(bytes@) && s@ == vstd::utf8::decode_utf8(bytes@),
            Err(_) => !vstd::utf8::valid_utf8(bytes@),
        },
{
    String::from_utf8(bytes)
}

/// MemStore implements the LogStore and StableStore traits.
/// It should NOT EVER be used for production. It is used only for
/// unit tests.
#[derive(Clone)]
pub struct MemStore {
    low_index: usize,
    high_index: usize,
    logs: HashMap<u64, Arc<Log>>,
    kv: Vec<(String, Bytes)>,
    kv_int: Vec<(String, u64)>,
}

/// The state a `MemStore` holds.
pub struct MemStoreView {
    pub low_index: usize,
    pub high_index: usize,
    pub logs: Map<u64, Arc<Log>>,
    pub kv: Map<Seq<char>, Seq<u8>>,
    pub kv_int: Map<Seq<char>, u64>,
}

impl View for MemStore {
    type V = MemStoreView;

    closed spec fn view(&self) -> MemStoreView {
        MemStoreView {
            low_index: self.low_index,
            high_index: self.high_index,
            logs: self.logs@,
            kv: assoc_view(self.kv@),
            kv_int: assoc_view(self.kv_int@),
        }
    }
}

/// The store after `l` is written: the first entry written sets the low index,
/// and the high index follows the highest index written.
pub open spec fn store_one(s: MemStoreView, l: Arc<Log>) -> MemStoreView {
    MemStoreView {
        logs: s.logs.insert(l.index, l),
        low_index: if s.low_index == 0 {
            l.index as usize
        } else {
            s.low_index
        },
        high_index: if l.index > s.high_index {
            l.index as usize
        } else {
            s.high_index
        },
        ..s
    }
}

/// The store after `logs` are written in order.
pub open spec fn store_all(s: MemStoreView, logs: Seq<Arc<Log>>) -> MemStoreView
    decreases logs.len(),
{
    if logs.len() == 0 {
        s
    } else {
        store_one(store_all(s, logs.drop_last()), logs.last())
    }
}

/// The store after the entries `min..=max` are deleted; when no index is left
/// between the bounds, both become 0.
pub open spec fn delete_range_view(s: MemStoreView, min: u64, max: u64) -> MemStoreView {
    let low = if min <= s.low_index {
        (max + 1) as usize
    } else {
        s.low_index
    };
    let high = if max >= s.high_index {
        (min - 1) as usize
    } else {
        s.high_index
    };
    MemStoreView {
        logs: s.logs.remove_keys(Set::new(|k: u64| min <= k <= max)),
        low_index: if low > high {
            0
        } else {
            low
        },
        high_index: if low > high {
            0
        } else {
            high
        },
        ..s
    }
}

impl MemStore {
    /// An empty store.
    pub fn new() -> (r: Self)
        ensures
            r@.low_index == 0,
            r@.high_index == 0,
            r@.logs == Map::<u64, Arc<Log>>::empty(),
            r@.kv == Map::<Seq<char>, Seq<u8>>::empty(),
            r@.kv_int == Map::<Seq<char>, u64>::empty(),
    {
        Self { low_index: 0, high_index: 0, logs: HashMap::new(), kv: Vec::new(), kv_int: Vec::new() }
    }
}

impl LogStore for MemStore {
    open spec fn spec_first_index(&self) -> Result<usize, Error> {
        Ok(self@.low_index)
    }

    open spec fn spec_last_index(&self) -> Result<usize, Error> {
        Ok(self@.high_index)
    }

    open spec fn spec_get_log(&self, index: usize) -> Result<Arc<Log>, Error> {
        if self@.logs.contains_key(index as u64) {
            Ok(self@.logs[index as u64])
        } else {
            Err(Error::LogNotFound)
        }
    }

    open spec fn spec_can_delete_range(&self, min: u64, max: u64) -> bool {
        max < u64::MAX && (max >= self@.high_index ==> min >= 1)
    }

    open spec fn spec_well_formed(&self) -> bool {
        true
    }

    /// Storing always succeeds and writes the entries in order.
    open spec fn spec_store_logs_outcome(&self, logs: Seq<Arc<Log>>, after: &Self, r: Result<(), Error>) -> bool {
        after@ == store_all(self@, logs) && r is Ok
    }

    /// Deleting always succeeds, as `delete_range_view` says.
    open spec fn spec_delete_range_outcome(&self, min: u64, max: u64, after: &Self, r: Result<(), Error>) -> bool {
        after@ == delete_range_view(self@, min, max) && r is Ok
    }

    fn first_index(&self) -> (r: Result<usize, Error>) {
        Ok(self.low_index)
    }

    fn last_index(&self) -> (r: Result<usize, Error>) {
        Ok(self.high_index)
    }

    fn get_log(&self, index: usize) -> (r: Result<Arc<Log>, Error>) {
        match self.logs.get(&(index as u64)) {
            None => Err(Error::LogNotFound),
            Some(l) => Ok(share_log(l)),
        }
    }

    fn store_log(&mut self, log: Arc<Log>) -> (r: Result<(), Error>)
        ensures
            final(self)@ == store_one(old(self)@, log),
            r is Ok,
    {
        let ghost before = self@;
        let mut logs = Vec::new();
        logs.push(log);
        assert(logs@.drop_last() =~= Seq::<Arc<Log>>::empty());
        assert(store_all(before, logs@.drop_last()) == before);
        assert(store_all(before, logs@) == store_one(before, log));
        self.store_logs(logs)
    }

    fn store_logs(&mut self, logs: Vec<Arc<Log>>) -> (r: Result<(), Error>)
        ensures
            final(self)@ == store_all(old(self)@, logs@),
            r is Ok,
    {
        let ghost start = self@;
        let n = logs.len();
        let mut i: usize = 0;
        while i < n
            invariant
                n == logs.len(),
                0 <= i <= n,
                self@ == store_all(start, logs@.take(i as int)),
            decreases n - i,
        {
            let l = &logs[i];
            assert(logs@.take(i + 1).drop_last() =~= logs@.take(i as int));
            self.logs.insert(l.index, share_log(l));
            if self.low_index == 0 {
                self.low_index = l.index as usize;
            }
            if l.index > self.high_index as u64 {
                self.high_index = l.index as usize;
            }
            i = i + 1;
        }
        assert(logs@.take(n as int) =~= logs@);
        Ok(())
    }

    fn delete_range(&mut self, min: u64, max: u64) -> (r: Result<(), Error>)
        ensures
            final(self)@ == delete_range_view(old(self)@, min, max),
            r is Ok,
            old(self)@.low_index < min <= old(self)@.high_index <= max ==> final(self)@.high_index
                == min - 1 && final(self)@.low_index == old(self)@.low_index,
            min <= old(self)@.low_index <= max < old(self)@.high_index ==> final(self)@.low_index
                == max + 1 && final(self)@.high_index == old(self)@.high_index,
    {
        let ghost start = self@;
        assert(start.logs.remove_keys(Set::new(|k: u64| min <= k < min)) =~= start.logs);
        let end = max + 1;
        let mut j = min;
        while j < end
            invariant
                end == max + 1,
                min <= j,
                j == min || j <= end,
                self@ == (MemStoreView {
                    logs: start.logs.remove_keys(Set::new(|k: u64| min <= k < j)),
                    ..start
                }),
            decreases end - j,
        {
            self.logs.remove(&j);
            j = j + 1;
            assert(self@.logs =~= start.logs.remove_keys(Set::new(|k: u64| min <= k < j)));
        }
        assert(Set::new(|k: u64| min <= k < j) =~= Set::new(|k: u64| min <= k <= max));
        if min <= self.low_index as u64 {
            self.low_index = (max + 1) as usize;
        }
        if max >= self.high_index as u64 {
            self.high_index = (min - 1) as usize;
        }
        if self.low_index > self.high_index {
            self.low_index = 0;
            self.high_index = 0;
        }
        Ok(())
    }
}


/// The key the bytes name, when they are valid UTF-8.
pub open spec fn key_of(key: Seq<u8>) -> Seq<char> {
    vstd::utf8::decode_utf8(key)
}

/// The store after `set(key, val)`.
pub open spec fn kv_after_set(s: MemStoreView, key: Seq<u8>, val: Seq<u8>) -> MemStoreView {
    MemStoreView { kv: s.kv.insert(key_of(key), val), ..s }
}

/// What `get(key)` answers: the value set for the key, or no bytes.
pub open spec fn kv_lookup(s: MemStoreView, key: Seq<u8>) -> Seq<u8> {
    if s.kv.contains_key(key_of(key)) {
        s.kv[key_of(key)]
    } else {
        Seq::<u8>::empty()
    }
}

/// The store after `set_u64(key, val)`.
pub open spec fn kv_int_after_set(s: MemStoreView, key: Seq<u8>, val: u64) -> MemStoreView {
    MemStoreView { kv_int: s.kv_int.insert(key_of(key), val), ..s }
}

/// What `get_u64(key)` answers: the number set for the key, or 0.
pub open spec fn kv_int_lookup(s: MemStoreView, key: Seq<u8>) -> u64 {
    if s.kv_int.contains_key(key_of(key)) {
        s.kv_int[key_of(key)]
    } else {
        0
    }
}

impl StableStore for MemStore {
    fn set(&mut self, key: Bytes, val: Bytes) -> (r: Result<(), Error>)
        ensures
            vstd::utf8::valid_utf8(key@) ==> r is Ok,
            vstd::utf8::valid_utf8(key@) ==> final(self)@ == kv_after_set(old(self)@, key@, val@),
            !vstd::utf8::valid_utf8(key@) ==> (r matches Err(Error::FromUtf8Error(_))),
            !vstd::utf8::valid_utf8(key@) ==> final(self)@ == old(self)@,
    {
        match string_from_utf8(key) {
            Ok(k) => {
                assoc_set(&mut self.kv, k, val);
                Ok(())
            },
            Err(e) => Err(Error::FromUtf8Error(e)),
        }
    }

    /// The value for `key`, or an empty byte slice when the key was not set.
    fn get(&self, key: Bytes) -> (r: Result<Bytes, Error>)
        ensures
            vstd::utf8::valid_utf8(key@) ==> (r matches Ok(v) && v@ == kv_lookup(self@, key@)),
            !vstd::utf8::valid_utf8(key@) ==> r matches Err(Error::FromUtf8Error(_)),
    {
        match string_from_utf8(key) {
            Ok(k) => match find_last_entry(&self.kv, &k) {
                Some(i) => {
                    proof {
                        lemma_assoc_last_entry(self.kv@, k@, i as int);
                    }
                    let v = self.kv[i].1.clone();
                    assert(v@ =~= self.kv@[i as int].1@);
                    Ok(v)
                },
                None => {
                    proof {
                        lemma_assoc_no_entry(self.kv@, k@);
                    }
                    Ok(Vec::new())
                },
            },
            Err(e) => Err(Error::FromUtf8Error(e)),
        }
    }

    fn set_u64(&mut self, key: Bytes, val: u64) -> (r: Result<(), Error>)
        ensures
            vstd::utf8::valid_utf8(key@) ==> r is Ok,
            vstd::utf8::valid_utf8(key@) ==> final(self)@ == kv_int_after_set(old(self)@, key@, val),
            !vstd::utf8::valid_utf8(key@) ==> (r matches Err(Error::FromUtf8Error(_))),
            !vstd::utf8::valid_utf8(key@) ==> final(self)@ == old(self)@,
    {
        match string_from_utf8(key) {
            Ok(k) => {
                assoc_set(&mut self.kv_int, k, val);
                Ok(())
            },
            Err(e) => Err(Error::FromUtf8Error(e)),
        }
    }

    /// The number for `key`, or 0 when the key was not set.
    fn get_u64(&self, key: Bytes) -> (r: Result<u64, Error>)
        ensures
            vstd::utf8::valid_utf8(key@) ==> r == Ok::<u64, Error>(kv_int_lookup(self@, key@)),
            !vstd::utf8::valid_utf8(key@) ==> r matches Err(Error::FromUtf8Error(_)),
    {
        match string_from_utf8(key) {
            Ok(k) => match find_last_entry(&self.kv_int, &k) {
                Some(i) => {
                    proof {
                        lemma_assoc_last_entry(self.kv_int@, k@, i as int);
                    }
                    Ok(self.kv_int[i].1)
                },
                None => {
                    proof {
                        lemma_assoc_no_entry(self.kv_int@, k@);
                    }
                    Ok(0)
                },
            },
            Err(e) => Err(Error::FromUtf8Error(e)),
        }
    }
}


/// `get` gives back what `set` stored under the same key, and keys that decode
/// to other strings are untouched.
pub proof fn law_get_after_set(s: MemStoreView, key: Seq<u8>, other: Seq<u8>, val: Seq<u8>)
    ensures
        kv_lookup(kv_after_set(s, key, val), key) == val,
        key_of(other) != key_of(key) ==> kv_lookup(kv_after_set(s, key, val), other) == kv_lookup(
            s,
            other,
        ),
{
}

/// `get_u64` gives back what `set_u64` stored under the same key, and keys that
/// decode to other strings are untouched.
pub proof fn law_get_u64_after_set_u64(s: MemStoreView, key: Seq<u8>, other: Seq<u8>, val: u64)
    ensures
        kv_int_lookup(kv_int_after_set(s, key, val), key) == val,
        key_of(other) != key_of(key) ==> kv_int_lookup(kv_int_after_set(s, key, val), other)
            == kv_int_lookup(s, other),
{
}

/// `get_log` of an index gives back the entry `store_log` last stored there.
pub proof fn law_get_log_after_store_log(before: MemStore, after: MemStore, l: Arc<Log>)
    requires
        after@ == store_one(before@, l),
        l.index <= usize::MAX,
    ensures
        after.spec_get_log(l.index as usize) == Ok::<Arc<Log>, Error>(l),
{
}

/// Storing an entry makes the last index at least its index, leaves a first
/// index already set alone and sets an unset one to the entry's index, and
/// keeps every other entry.
pub proof fn law_store_log_bounds(s: MemStoreView, l: Arc<Log>)
    requires
        l.index <= usize::MAX,
    ensures
        store_one(s, l).high_index >= l.index,
        store_one(s, l).high_index >= s.high_index,
        store_one(s, l).high_index == l.index || store_one(s, l).high_index == s.high_index,
        s.low_index != 0 ==> store_one(s, l).low_index == s.low_index,
        s.low_index == 0 ==> store_one(s, l).low_index == l.index,
        store_one(s, l).logs.contains_key(l.index) && store_one(s, l).logs[l.index] == l,
        forall|k: u64| k != l.index && #[trigger] s.logs.contains_key(k) ==> store_one(s, l).logs.contains_key(k)
            && store_one(s, l).logs[k] == s.logs[k],
{
}

/// Deleting the tail of the log moves the last index back to just before the
/// deleted range and keeps the first index: with `low < min <= high <= max`,
/// the last index becomes `min - 1`.
pub proof fn law_delete_tail_moves_last_index(s: MemStoreView, min: u64, max: u64)
    requires
        s.low_index < min <= s.high_index <= max,
    ensures
        delete_range_view(s, min, max).high_index == min - 1,
        delete_range_view(s, min, max).low_index == s.low_index,
{
}

/// Deleting the head of the log moves the first index to just after the
/// deleted range and keeps the last index: with `min <= low <= max < high`,
/// the first index becomes `max + 1`.
pub proof fn law_delete_head_moves_first_index(s: MemStoreView, min: u64, max: u64)
    requires
        min <= s.low_index <= max < s.high_index,
    ensures
        delete_range_view(s, min, max).low_index == max + 1,
        delete_range_view(s, min, max).high_index == s.high_index,
{
}

/// When every entry lies between the first and the last index, that stays so
/// after a deletion: no entry is left outside the new bounds, and a store whose
/// bounds were reset to 0 holds no entry other than at index 0.
pub proof fn law_delete_keeps_entries_within_bounds(s: MemStoreView, min: u64, max: u64)
    requires
        1 <= min <= max,
        max < u64::MAX,
        max < usize::MAX,
        forall|k: u64| #[trigger] s.logs.contains_key(k) ==> s.low_index <= k <= s.high_index,
    ensures
        forall|k: u64|
            #[trigger] delete_range_view(s, min, max).logs.contains_key(k) ==> delete_range_view(
                s,
                min,
                max,
            ).low_index <= k <= delete_range_view(s, min, max).high_index,
        forall|k: u64|
            #[trigger] delete_range_view(s, min, max).logs.contains_key(k) ==> !(min <= k <= max),
{
    let r = delete_range_view(s, min, max);
    assert forall|k: u64| #[trigger] r.logs.contains_key(k) implies r.low_index <= k <= r.high_index
        && !(min <= k <= max) by {
        assert(s.logs.contains_key(k));
        assert(!Set::new(|j: u64| min <= j <= max).contains(k));
        let low: int = if min <= s.low_index {
            max + 1
        } else {
            s.low_index as int
        };
        let high: int = if max >= s.high_index {
            min - 1
        } else {
            s.high_index as int
        };
        assert(low <= k <= high);
        assert(r.low_index == low && r.high_index == high);
    }
}

/// After `delete_range(min, max)` no index of the range has an entry.
pub proof fn law_deleted_range_is_gone(
    before: MemStore,
    after: MemStore,
    min: u64,
    max: u64,
    index: usize,
)
    requires
        after@ == delete_range_view(before@, min, max),
        min <= index <= max,
    ensures
        after.spec_get_log(index) == Err::<Arc<Log>, Error>(Error::LogNotFound),
{
}

} // verus!
