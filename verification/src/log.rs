use vstd::prelude::*;
use crate::names::same_text;
use chrono::NaiveDateTime;
use crate::ext_types::utc_now;
use std::collections::HashMap;
use std::sync::Arc;
use crate::errors::Error;

verus! {

/// `LogType` describes various types of log entries.
#[derive(Debug, Copy, Clone, Eq, PartialEq, Structural)]
pub enum LogType {
    /// `Command` is applied to a user FSM
    Command,
    /// `Noop` is used to assert leadership
    Noop,
    /// `AddPeerDeprecated` is used to add a new peer, This should only be used with
    /// older protocol versions designed to be compatible with unversioned
    /// Raft servers.
    AddPeerDeprecated,
    /// `RemovePeerDeprecated` is used to remove an existing peer. This should only be
    /// used with older protocol versions designed to be compatible with
    /// unversioned Raft servers.
    RemovePeerDeprecated,
    /// `Barrier` is used to ensure all preceding operations have been
    /// applied to the FSM. It is similar to Noop, but instead of returning
    /// once committed, it only returns once the FSM manager acks it.
    Barrier,
    /// `Configuration` establishes a membership change configuration. It is
    /// created when a server is added, removed, promoted, etc.
    Configuration,
}

/// Log entries are replicated to all members of the Raft cluster
/// and form the heart of the replicated state machine.
#[derive(Debug, Clone)]
pub struct Log {
    /// index holds the index of the log entry
    pub index: u64,
    /// term holds the election term of the log entry
    pub term: u64,
    /// typ holds the type of the log entry
    pub typ: LogType,
    /// data holds the log entry's type-specific data,
    pub data: Vec<u8>,
    /// extensions holds an opaque byte slice of information for middleware. It
    /// is up to the client of the library to properly modify this as it adds
    /// layers and remove those layers when appropriate.
    pub extensions: Vec<u8>,
    /// append_at stores the time the leader first appended this log to its
    /// log_store. It is not used for coordination or as part of the replication
    /// protocol at all. It is kept in UTC.
    pub append_at: NaiveDateTime,
}

impl Log {
    /// An entry without data or extensions, stamped with the current time.
    pub fn new(index: u64, term: u64, typ: LogType) -> (r: Self)
        ensures
            r.index == index,
            r.term == term,
            r.typ == typ,
            r.data@ == Seq::<u8>::empty(),
            r.extensions@ == Seq::<u8>::empty(),
    {
        Self { index, term, typ, data: Vec::new(), extensions: Vec::new(), append_at: utc_now() }
    }

    /// `Log::new`, shared behind an `Arc`.
    pub fn with_arc(index: u64, term: u64, typ: LogType) -> (r: Arc<Self>)
        ensures
            r.index == index,
            r.term == term,
            r.typ == typ,
            r.data@ == Seq::<u8>::empty(),
            r.extensions@ == Seq::<u8>::empty(),
    {
        Arc::new(Self::new(index, term, typ))
    }

    /// An entry with every field given.
    pub fn with_all(
        index: u64,
        term: u64,
        typ: LogType,
        data: Vec<u8>,
        ext: Vec<u8>,
        append_at: NaiveDateTime,
    ) -> (r: Self)
        ensures
            r == (Self { index, term, typ, data, extensions: ext, append_at }),
    {
        Self { index, term, typ, data, extensions: ext, append_at }
    }

    /// `Log::with_all`, shared behind an `Arc`.
    pub fn with_all_and_arc(
        index: u64,
        term: u64,
        typ: LogType,
        data: Vec<u8>,
        ext: Vec<u8>,
        append_at: NaiveDateTime,
    ) -> (r: Arc<Self>)
        ensures
            *r == (Self { index, term, typ, data, extensions: ext, append_at }),
    {
        Arc::new(Self::with_all(index, term, typ, data, ext, append_at))
    }

    pub fn set_data(&mut self, data: Vec<u8>)
        ensures
            *final(self) == (Self { data, ..*old(self) }),
    {
        self.data = data;
    }

    pub fn set_extensions(&mut self, ext: Vec<u8>)
        ensures
            *final(self) == (Self { extensions: ext, ..*old(self) }),
    {
        self.extensions = ext;
    }

    pub fn set_append_time(&mut self, time: NaiveDateTime)
        ensures
            *final(self) == (Self { append_at: time, ..*old(self) }),
    {
        self.append_at = time;
    }

    pub fn set_type(&mut self, typ: LogType)
        ensures
            *final(self) == (Self { typ, ..*old(self) }),
    {
        self.typ = typ;
    }
}

impl Default for Log {
    /// An empty `Command` entry at index 0, term 0, stamped with the current time.
    fn default() -> (r: Self)
        ensures
            r.index == 0,
            r.term == 0,
            r.typ == LogType::Command,
            r.data@ == Seq::<u8>::empty(),
            r.extensions@ == Seq::<u8>::empty(),
    {
        Self::new(0, 0, LogType::Command)
    }
}

/// `l` holds what `al` points to.
pub open spec fn copies_log(l: Log, al: Log) -> bool {
    &&& l.index == al.index
    &&& l.term == al.term
    &&& l.typ == al.typ
    &&& l.data@ == al.data@
    &&& l.extensions@ == al.extensions@
    &&& l.append_at == al.append_at
}

impl From<Arc<Log>> for Log {
    /// A copy of the shared entry.
    fn from(al: Arc<Log>) -> (r: Self)
        ensures
            copies_log(r, *al),
    {
        Self {
            index: al.index,
            term: al.term,
            typ: al.typ,
            data: al.data.clone(),
            extensions: al.extensions.clone(),
            append_at: al.append_at,
        }
    }
}

/// The copy holds new vectors with the same bytes, so it is not claimed to be
/// the very value `from_spec` names; `copies_log` states what it holds.
impl vstd::std_specs::convert::FromSpecImpl<Arc<Log>> for Log {
    open spec fn obeys_from_spec() -> bool {
        false
    }

    open spec fn from_spec(al: Arc<Log>) -> Log {
        *al
    }
}


/// `LogStore` is used to provide an interface for storing
/// and retrieving logs in a durable fashion. Its reads are functions of the
/// store's state: reading twice without a write in between gives the same answer.
pub trait LogStore {
    /// What `first_index` answers for this state of the store.
    spec fn spec_first_index(&self) -> Result<usize, Error>;

    /// What `last_index` answers for this state of the store.
    spec fn spec_last_index(&self) -> Result<usize, Error>;

    /// What `get_log` answers for `index` in this state of the store.
    spec fn spec_get_log(&self, index: usize) -> Result<Arc<Log>, Error>;

    /// The range `min..=max` can be deleted from this state of the store.
    spec fn spec_can_delete_range(&self, min: u64, max: u64) -> bool;

    /// The store is usable: what its constructor establishes and its writes keep.
    spec fn spec_well_formed(&self) -> bool;

    /// Entries can be looked up and stored by their index. A store that needs
    /// nothing for that is always ready.
    open spec fn spec_entries_reachable(&self) -> bool {
        true
    }

    /// Storing `logs` in this state of the store may leave it as `after`,
    /// answering `r`. A store that describes none of its writes allows every
    /// outcome.
    open spec fn spec_store_logs_outcome(&self, logs: Seq<Arc<Log>>, after: &Self, r: Result<(), Error>) -> bool {
        true
    }

    /// Deleting the entries `min..=max` from this state of the store may leave
    /// it as `after`, answering `r`. A store that describes none of its
    /// deletions allows every outcome.
    open spec fn spec_delete_range_outcome(&self, min: u64, max: u64, after: &Self, r: Result<(), Error>) -> bool {
        true
    }

    /// `first_index` returns the first index written. 0 for no entries.
    fn first_index(&self) -> (r: Result<usize, Error>)
        ensures
            r == self.spec_first_index(),
    ;

    /// `last_index` returns the last index written. 0 for no entries.
    fn last_index(&self) -> (r: Result<usize, Error>)
        ensures
            r == self.spec_last_index(),
    ;

    /// `get_log` gets a log entry at a given index.
    fn get_log(&self, index: usize) -> (r: Result<Arc<Log>, Error>)
        requires
            self.spec_well_formed(),
            self.spec_entries_reachable(),
        ensures
            r == self.spec_get_log(index),
    ;

    /// `store_log` stores a log entry
    fn store_log(&mut self, log: Arc<Log>) -> (r: Result<(), Error>)
        requires
            old(self).spec_well_formed(),
            old(self).spec_entries_reachable(),
        ensures
            final(self).spec_well_formed(),
    ;

    /// `store_logs` stores multiple log entries.
    fn store_logs(&mut self, logs: Vec<Arc<Log>>) -> (r: Result<(), Error>)
        requires
            old(self).spec_well_formed(),
            old(self).spec_entries_reachable(),
        ensures
            final(self).spec_well_formed(),
            old(self).spec_store_logs_outcome(logs@, &*final(self), r),
    ;

    /// `delete_range` deletes a range of log entries. The range is inclusive.
    fn delete_range(&mut self, min: u64, max: u64) -> (r: Result<(), Error>)
        requires
            old(self).spec_well_formed(),
            old(self).spec_can_delete_range(min, max),
        ensures
            final(self).spec_well_formed(),
            old(self).spec_delete_range_outcome(min, max, &*final(self), r),
    ;
}

/// What `oldest_log` answers for `store`: the entry at its first index.
pub open spec fn oldest_log_outcome<T: LogStore>(store: T) -> Result<Arc<Log>, Error> {
    match store.spec_first_index() {
        Err(e) => Err(e),
        Ok(first_idx) => if first_idx == 0 {
            Err(Error::LogNotFound)
        } else {
            store.spec_get_log(first_idx)
        },
    }
}

/// `oldest_log` returns the oldest log in the store. A truncation may land
/// between reading the first index and fetching it, so a failed fetch is tried
/// again with a fresh first index; it gives up when the first index has not
/// moved since the failure.
pub fn oldest_log<T>(store: T) -> (r: Result<Arc<Log>, Error>) where T: LogStore + Clone
    requires
        store.spec_well_formed(),
        store.spec_entries_reachable(),
    ensures
        r == oldest_log_outcome(store),
{
    let mut last_fail_idx: usize = 0;
    let mut last_err: Error = Error::LogNotFound;
    let ghost mut attempts: int = 0;
    loop
        invariant
            0 <= attempts <= 1,
            store.spec_well_formed(),
            store.spec_entries_reachable(),
            attempts == 0 ==> last_fail_idx == 0,
            attempts == 1 ==> store.spec_first_index() == Ok::<usize, Error>(last_fail_idx)
                && last_fail_idx != 0 && store.spec_get_log(last_fail_idx) == Err::<Arc<Log>, Error>(
                last_err),
        decreases 1 - attempts,
    {
        let first = store.first_index();
        match oldest_log_next(first, last_fail_idx, last_err) {
            OldestLogStep::Done(r) => {
                return r;
            },
            OldestLogStep::Fetch(first_idx) => {
                match store.get_log(first_idx) {
                    Ok(l) => {
                        return Ok(l);
                    },
                    Err(e) => {
                        last_err = e;
                        last_fail_idx = first_idx;
                    },
                }
            },
        }
        proof {
            attempts = attempts + 1;
        }
    }
}

/// What `oldest_log` does next after reading the store's first index.
pub enum OldestLogStep {
    /// It answers with this.
    Done(Result<Arc<Log>, Error>),
    /// It fetches the entry at this index.
    Fetch(usize),
}

/// The next step of `oldest_log`, given the first index the store answered,
/// the index whose fetch failed last time (0 when none did) and that failure.
pub open spec fn oldest_log_decision(
    first: Result<usize, Error>,
    last_fail_idx: usize,
    last_err: Error,
) -> OldestLogStep {
    match first {
        Err(e) => OldestLogStep::Done(Err(e)),
        Ok(i) => if i == 0 {
            OldestLogStep::Done(Err(Error::LogNotFound))
        } else if i == last_fail_idx {
            OldestLogStep::Done(Err(last_err))
        } else {
            OldestLogStep::Fetch(i)
        },
    }
}

/// Decides the next step of `oldest_log`: a failed read of the first index is
/// reported, an empty store has no oldest entry, a first index whose fetch
/// already failed reports that failure, and any other first index is fetched,
/// again after a failure once a truncation has moved it.
pub fn oldest_log_next(first: Result<usize, Error>, last_fail_idx: usize, last_err: Error) -> (r:
    OldestLogStep)
    ensures
        r == oldest_log_decision(first, last_fail_idx, last_err),
{
    let first_idx = match first {
        Ok(i) => i,
        Err(e) => return OldestLogStep::Done(Err(e)),
    };
    if first_idx == 0 {
        return OldestLogStep::Done(Err(Error::LogNotFound));
    }
    if first_idx == last_fail_idx {
        return OldestLogStep::Done(Err(last_err));
    }
    OldestLogStep::Fetch(first_idx)
}


/// The cache slots after `logs` are cached in order: entry `l` takes slot
/// `l.index % cap`, replacing what was there.
pub open spec fn cache_after(
    cache: Map<usize, Arc<Log>>,
    logs: Seq<Arc<Log>>,
    cap: usize,
) -> Map<usize, Arc<Log>>
    decreases logs.len(),
{
    if logs.len() == 0 {
        cache
    } else {
        cache_after(cache, logs.drop_last(), cap).insert(
            (logs.last().index % (cap as u64)) as usize,
            logs.last(),
        )
    }
}

/// What the cache holds and answers after the store answered `inner_r` to
/// storing `logs`: on success the entries are cached and the answer is `Ok`;
/// on failure the cache is unchanged and the failure is reported as
/// `UnableToStoreLogs`.
pub open spec fn stored_through_cache(
    slots: Map<usize, Arc<Log>>,
    logs: Seq<Arc<Log>>,
    cap: usize,
    inner_r: Result<(), Error>,
    after_slots: Map<usize, Arc<Log>>,
    r: Result<(), Error>,
) -> bool {
    match inner_r {
        Ok(_) => r is Ok && after_slots == cache_after(slots, logs, cap),
        Err(_) => (r matches Err(Error::UnableToStoreLogs(_))) && after_slots == slots,
    }
}

/// Another handle on each of the shared entries, in the same order.
fn share_logs(logs: &Vec<Arc<Log>>) -> (r: Vec<Arc<Log>>)
    ensures
        r@ == logs@,
{
    let mut r: Vec<Arc<Log>> = Vec::new();
    let n = logs.len();
    let mut i: usize = 0;
    while i < n
        invariant
            n == logs.len(),
            0 <= i <= n,
            r@ == logs@.take(i as int),
        decreases n - i,
    {
        r.push(share_log(&logs[i]));
        assert(logs@.take(i + 1) =~= logs@.take(i as int).push(logs@[i as int]));
        i = i + 1;
    }
    assert(logs@.take(n as int) =~= logs@);
    r
}

/// `LogCache` wraps any `LogStore` implementation to provide an
/// in-memory ring buffer. This is used to cache access to
/// the recently written entries: entry `i` lives in slot `i % capacity`.
pub struct LogCache<T: LogStore> {
    store: T,
    cache: HashMap<usize, Arc<Log>>,
    cap: usize,
}

impl<T: LogStore> LogCache<T> {
    /// The store behind the cache.
    pub closed spec fn inner(&self) -> T {
        self.store
    }

    /// The cached entries, by slot.
    pub closed spec fn slots(&self) -> Map<usize, Arc<Log>> {
        self.cache@
    }

    /// The number of slots.
    pub closed spec fn capacity(&self) -> usize {
        self.cap
    }

    /// An empty cache of `capacity` slots in front of `store`.
    pub fn new(store: T, capacity: usize) -> (r: Self)
        ensures
            store.spec_well_formed() ==> r.spec_well_formed(),
            r.spec_entries_reachable() == (capacity > 0 && store.spec_entries_reachable()),
            r.inner() == store,
            r.slots() == Map::<usize, Arc<Log>>::empty(),
            r.capacity() == capacity,
    {
        Self { store, cache: HashMap::with_capacity(capacity), cap: capacity }
    }
}

impl<T: LogStore> LogStore for LogCache<T> {
    open spec fn spec_first_index(&self) -> Result<usize, Error> {
        self.inner().spec_first_index()
    }

    open spec fn spec_last_index(&self) -> Result<usize, Error> {
        self.inner().spec_last_index()
    }

    /// The entry cached in the index's slot answers when it is the entry at that
    /// index; otherwise the store answers.
    open spec fn spec_get_log(&self, index: usize) -> Result<Arc<Log>, Error> {
        let slot = (index % self.capacity()) as usize;
        if self.slots().contains_key(slot) && self.slots()[slot].index == index {
            Ok(self.slots()[slot])
        } else {
            self.inner().spec_get_log(index)
        }
    }

    open spec fn spec_can_delete_range(&self, min: u64, max: u64) -> bool {
        self.inner().spec_can_delete_range(min, max)
    }

    open spec fn spec_well_formed(&self) -> bool {
        self.inner().spec_well_formed()
    }

    /// Entries are placed in slots by their index modulo the capacity, so
    /// there must be a slot.
    open spec fn spec_entries_reachable(&self) -> bool {
        self.capacity() > 0 && self.inner().spec_entries_reachable()
    }

    /// The store takes the entries or refuses them; the cache follows only
    /// when it took them.
    open spec fn spec_store_logs_outcome(&self, logs: Seq<Arc<Log>>, after: &Self, r: Result<(), Error>) -> bool {
        &&& after.capacity() == self.capacity()
        &&& exists|inner_r: Result<(), Error>|
            #[trigger] self.inner().spec_store_logs_outcome(logs, &after.inner(), inner_r) && stored_through_cache(
                self.slots(),
                logs,
                self.capacity(),
                inner_r,
                after.slots(),
                r,
            )
    }

    /// The cache is emptied and the store deletes the range; its answer is the answer.
    open spec fn spec_delete_range_outcome(&self, min: u64, max: u64, after: &Self, r: Result<(), Error>) -> bool {
        &&& after.capacity() == self.capacity()
        &&& after.slots() == Map::<usize, Arc<Log>>::empty()
        &&& self.inner().spec_delete_range_outcome(min, max, &after.inner(), r)
    }

    fn first_index(&self) -> (r: Result<usize, Error>) {
        self.store.first_index()
    }

    fn last_index(&self) -> (r: Result<usize, Error>) {
        self.store.last_index()
    }

    fn get_log(&self, index: usize) -> (r: Result<Arc<Log>, Error>) {
        broadcast use vstd::std_specs::hash::group_hash_axioms;

        match self.cache.get(&(index % self.cap)) {
            Some(l) => {
                if l.index == index as u64 {
                    Ok(share_log(l))
                } else {
                    self.store.get_log(index)
                }
            },
            None => self.store.get_log(index),
        }
    }

    /// Hands the entry to the store; the cache is left as it was.
    fn store_log(&mut self, log: Arc<Log>) -> (r: Result<(), Error>)
        ensures
            final(self).slots() == old(self).slots(),
            final(self).capacity() == old(self).capacity(),
            old(self).inner().spec_store_logs_outcome(seq![log], &final(self).inner(), r),
    {
        let mut logs = Vec::new();
        logs.push(log);
        assert(logs@ =~= seq![log]);
        self.store.store_logs(logs)
    }

    /// Hands the entries to the store and, when it took them, caches them.
    fn store_logs(&mut self, logs: Vec<Arc<Log>>) -> (r: Result<(), Error>)
        ensures
            final(self).capacity() == old(self).capacity(),
            r is Ok ==> final(self).slots() == cache_after(old(self).slots(), logs@, old(self).capacity()),
            r is Err ==> final(self).slots() == old(self).slots(),
            r is Err ==> (r matches Err(Error::UnableToStoreLogs(_))),
    {
        broadcast use vstd::std_specs::hash::group_hash_axioms;

        let ghost before = *self;
        let copy = share_logs(&logs);
        let rst = self.store.store_logs(copy);
        if let Err(e) = rst {
            let r = Err(Error::UnableToStoreLogs(e.message()));
            assert(stored_through_cache(before.slots(), logs@, before.capacity(), rst, self.slots(), r));
            return r;
        }
        let ghost inner_r = rst;
        assert(before.inner().spec_store_logs_outcome(logs@, &self.inner(), inner_r));
        let ghost start = self.cache@;
        let n = logs.len();
        let mut i: usize = 0;
        while i < n
            invariant
                n == logs.len(),
                0 <= i <= n,
                self.cap > 0,
                self.cap == old(self).cap,
                self.store.spec_well_formed(),
                before.inner().spec_store_logs_outcome(logs@, &self.inner(), inner_r),
                self.cache@ == cache_after(start, logs@.take(i as int), self.cap),
            decreases n - i,
        {
            let l = &logs[i];
            assert(logs@.take(i + 1).drop_last() =~= logs@.take(i as int));
            self.cache.insert((l.index % self.cap as u64) as usize, share_log(l));
            i = i + 1;
        }
        assert(logs@.take(n as int) =~= logs@);
        assert(stored_through_cache(before.slots(), logs@, before.capacity(), inner_r, self.slots(), Ok(())));
        assert(before.inner().spec_store_logs_outcome(logs@, &self.inner(), inner_r));
        Ok(())
    }

    /// Empties the cache and deletes the range from the store.
    fn delete_range(&mut self, min: u64, max: u64) -> (r: Result<(), Error>)
        ensures
            final(self).slots() == Map::<usize, Arc<Log>>::empty(),
            final(self).capacity() == old(self).capacity(),
            old(self).inner().spec_delete_range_outcome(min, max, &final(self).inner(), r),
    {
        self.cache.clear();
        self.store.delete_range(min, max)
    }
}

/// The cache never answers with an entry at another index: whatever `get_log`
/// gives for `index` is either the entry at that index or what the store
/// itself gives.
pub proof fn law_cache_answers_only_for_its_index<T: LogStore>(c: LogCache<T>, index: usize)
    requires
        c.capacity() > 0,
    ensures
        c.spec_get_log(index) matches Ok(l) ==> l.index == index || c.inner().spec_get_log(index)
            == Ok::<Arc<Log>, Error>(l),
        c.spec_get_log(index) is Err ==> c.spec_get_log(index) == c.inner().spec_get_log(index),
{
}

/// After `store_logs` succeeds, `get_log` of the last entry's index gives back
/// that entry from the cache.
pub proof fn law_cache_serves_last_stored<T: LogStore>(
    after: LogCache<T>,
    before_slots: Map<usize, Arc<Log>>,
    logs: Seq<Arc<Log>>,
)
    requires
        after.capacity() > 0,
        after.slots() == cache_after(before_slots, logs, after.capacity()),
        logs.len() > 0,
        logs.last().index <= usize::MAX,
    ensures
        after.spec_get_log(logs.last().index as usize) == Ok::<Arc<Log>, Error>(logs.last()),
{
    let cap = after.capacity();
    let i = logs.last().index;
    assert(((i as usize) % cap) as usize == (i % (cap as u64)) as usize);
}

/// The milliseconds from the Unix epoch to `t`, read as a UTC time.
pub uninterp spec fn epoch_millis_of(t: NaiveDateTime) -> i64;

/// `NaiveDateTime::timestamp_millis` of `t` as a UTC time: the
/// non-leap milliseconds since the Unix epoch.
#[verifier::external_body]
fn epoch_millis(t: &NaiveDateTime) -> (r: i64)
    ensures
        r == epoch_millis_of(*t),
{
    t.and_utc().timestamp_millis()
}

/// The whole milliseconds from `earlier` to `later` (negative when `later` comes first).
pub uninterp spec fn millis_between(later: NaiveDateTime, earlier: NaiveDateTime) -> i64;

/// `later.signed_duration_since(earlier).num_milliseconds()`.
#[verifier::external_body]
fn millis_since(later: &NaiveDateTime, earlier: &NaiveDateTime) -> (r: i64)
    ensures
        r == millis_between(*later, *earlier),
{
    later.signed_duration_since(*earlier).num_milliseconds()
}

/// The age at `now` that the oldest-log metric reports for `store`: the time
/// since the oldest entry was appended, in milliseconds; 0 when the store has
/// no oldest entry or the entry carries the epoch as its time.
pub open spec fn oldest_log_age(store_outcome: Result<Arc<Log>, Error>, now: NaiveDateTime) -> i64 {
    match store_outcome {
        Ok(l) => if epoch_millis_of(l.append_at) != 0 {
            millis_between(now, l.append_at)
        } else {
            0
        },
        Err(_) => 0,
    }
}

/// The age in milliseconds of the oldest entry in `store` at time `now`, as the
/// oldest-log metric reports it.
pub fn oldest_log_age_millis<T: LogStore + Clone>(store: T, now: NaiveDateTime) -> (r: i64)
    requires
        store.spec_well_formed(),
        store.spec_entries_reachable(),
    ensures
        r == oldest_log_age(oldest_log_outcome(store), now),
{
    // In error case emit 0 as the age
    let mut age_ms: i64 = 0;
    if let Ok(l) = oldest_log(store) {
        if epoch_millis(&l.append_at) != 0 {
            age_ms = millis_since(&now, &l.append_at);
        }
    }
    age_ms
}

/// `Arc::clone`: another pointer to the same shared entry.
#[verifier::external_body]
pub(crate) fn share_log(l: &Arc<Log>) -> (r: Arc<Log>)
    ensures
        r == *l,
{
    l.clone()
}


/// The name of a `LogType`, in CamelCase.
pub open spec fn log_type_name(v: LogType) -> Seq<char> {
    match v {
        LogType::Command => "Command"@,
        LogType::Noop => "Noop"@,
        LogType::AddPeerDeprecated => "AddPeerDeprecated"@,
        LogType::RemovePeerDeprecated => "RemovePeerDeprecated"@,
        LogType::Barrier => "Barrier"@,
        LogType::Configuration => "Configuration"@,
    }
}

/// The `LogType` that `s` names, if any.
pub open spec fn log_type_named(s: Seq<char>) -> Option<LogType> {
    if s == "Command"@ {
        Some(LogType::Command)
    } else if s == "Noop"@ {
        Some(LogType::Noop)
    } else if s == "AddPeerDeprecated"@ {
        Some(LogType::AddPeerDeprecated)
    } else if s == "RemovePeerDeprecated"@ {
        Some(LogType::RemovePeerDeprecated)
    } else if s == "Barrier"@ {
        Some(LogType::Barrier)
    } else if s == "Configuration"@ {
        Some(LogType::Configuration)
    } else {
        None
    }
}

impl LogType {
    /// The name of the value, in CamelCase.
    pub fn name(&self) -> (r: String)
        ensures
            r@ == log_type_name(*self),
    {
        match self {
            LogType::Command => String::from_str("Command"),
            LogType::Noop => String::from_str("Noop"),
            LogType::AddPeerDeprecated => String::from_str("AddPeerDeprecated"),
            LogType::RemovePeerDeprecated => String::from_str("RemovePeerDeprecated"),
            LogType::Barrier => String::from_str("Barrier"),
            LogType::Configuration => String::from_str("Configuration"),
        }
    }

    /// The value that `s` names, written as `name` writes it.
    pub fn parse(s: &str) -> (r: Option<Self>)
        ensures
            r == log_type_named(s@),
    {
        if same_text(s, "Command") {
            return Some(LogType::Command);
        }
        if same_text(s, "Noop") {
            return Some(LogType::Noop);
        }
        if same_text(s, "AddPeerDeprecated") {
            return Some(LogType::AddPeerDeprecated);
        }
        if same_text(s, "RemovePeerDeprecated") {
            return Some(LogType::RemovePeerDeprecated);
        }
        if same_text(s, "Barrier") {
            return Some(LogType::Barrier);
        }
        if same_text(s, "Configuration") {
            return Some(LogType::Configuration);
        }
        None
    }
}

/// Parsing the name of a `LogType` gives the value back.
pub proof fn law_log_type_parse_name(v: LogType)
    ensures
        log_type_named(log_type_name(v)) == Some(v),
{
    reveal_strlit("Command");
    reveal_strlit("Noop");
    reveal_strlit("AddPeerDeprecated");
    reveal_strlit("RemovePeerDeprecated");
    reveal_strlit("Barrier");
    reveal_strlit("Configuration");
    assert("Command"@.len() != "Noop"@.len());
    assert("Command"@.len() != "AddPeerDeprecated"@.len());
    assert("Command"@.len() != "RemovePeerDeprecated"@.len());
    assert("Command"@[0] != "Barrier"@[0]);
    assert("Command"@.len() != "Configuration"@.len());
    assert("Noop"@.len() != "AddPeerDeprecated"@.len());
    assert("Noop"@.len() != "RemovePeerDeprecated"@.len());
    assert("Noop"@.len() != "Barrier"@.len());
    assert("Noop"@.len() != "Configuration"@.len());
    assert("AddPeerDeprecated"@.len() != "RemovePeerDeprecated"@.len());
    assert("AddPeerDeprecated"@.len() != "Barrier"@.len());
    assert("AddPeerDeprecated"@.len() != "Configuration"@.len());
    assert("RemovePeerDeprecated"@.len() != "Barrier"@.len());
    assert("RemovePeerDeprecated"@.len() != "Configuration"@.len());
    assert("Barrier"@.len() != "Configuration"@.len());
}

} // verus!
