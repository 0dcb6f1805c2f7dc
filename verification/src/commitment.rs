use vstd::prelude::*;
use std::collections::HashMap;
use vstd::std_specs::iter::IteratorSpec;
use tokio::sync::mpsc::{UnboundedReceiver, UnboundedSender};
use crate::config::{Configuration, ServerID, ServerSuffrage, ServerView};

verus! {

broadcast use vstd::std_specs::hash::group_hash_axioms;

/// Number of entries of `vals` that are at least `q`.
pub open spec fn count_at_least(vals: Seq<u64>, q: u64) -> nat
    decreases vals.len(),
{
    if vals.len() == 0 {
        0
    } else {
        count_at_least(vals.drop_last(), q) + if vals.last() >= q {
            1nat
        } else {
            0nat
        }
    }
}

/// `q` is the largest entry of `vals` that a strict majority of the entries reach.
pub open spec fn is_majority_value(vals: Seq<u64>, q: u64) -> bool {
    &&& exists|j: int| 0 <= j < vals.len() && vals[j] == q
    &&& 2 * count_at_least(vals, q) > vals.len()
    &&& forall|j: int|
        0 <= j < vals.len() && 2 * count_at_least(vals, vals[j]) > vals.len() ==> vals[j] <= q
}

/// The voters whose match index is at least `q`.
pub open spec fn voters_at_least(m: Map<ServerID, u64>, q: u64) -> Set<ServerID> {
    m.dom().filter(|k: ServerID| m[k] >= q)
}

/// A strict majority of the voters in `m` store the log up through `q`.
pub open spec fn stored_by_quorum(m: Map<ServerID, u64>, q: u64) -> bool {
    2 * voters_at_least(m, q).len() > m.dom().len()
}

/// `q` is the highest match index that a strict majority of the voters store.
pub open spec fn is_quorum_match_index(m: Map<ServerID, u64>, q: u64) -> bool {
    &&& exists|k: ServerID| m.dom().contains(k) && m[k] == q
    &&& stored_by_quorum(m, q)
    &&& forall|k: ServerID| m.dom().contains(k) && stored_by_quorum(m, m[k]) ==> m[k] <= q
}

/// The highest match index that a strict majority of the voters store.
pub open spec fn quorum_match_index(m: Map<ServerID, u64>) -> u64 {
    choose|q: u64| is_quorum_match_index(m, q)
}

/// The commit index after the match indexes `m` are taken into account: it
/// moves up to the quorum's match index when that is higher and has reached the
/// first index of the leader's term.
pub open spec fn recalculated_commit(m: Map<ServerID, u64>, commit_index: u64, start_index: u64) -> u64 {
    if m.dom().len() == 0 {
        commit_index
    } else {
        let q = quorum_match_index(m);
        if q > commit_index && q >= start_index {
            q
        } else {
            commit_index
        }
    }
}

proof fn lemma_quorum_match_index_unique(m: Map<ServerID, u64>, q: u64)
    requires
        is_quorum_match_index(m, q),
    ensures
        quorum_match_index(m) == q,
{
    let c = choose|x: u64| is_quorum_match_index(m, x);
    assert(is_quorum_match_index(m, c));
    let kq = choose|k: ServerID| m.dom().contains(k) && m[k] == q;
    let kc = choose|k: ServerID| m.dom().contains(k) && m[k] == c;
    assert(m[kq] <= c);
    assert(m[kc] <= q);
}

/// Taking out the entry at `i` takes out what it counted.
proof fn lemma_count_at_least_remove(vals: Seq<u64>, i: int, q: u64)
    requires
        0 <= i < vals.len(),
    ensures
        count_at_least(vals, q) == count_at_least(vals.remove(i), q) + if vals[i] >= q {
            1nat
        } else {
            0nat
        },
    decreases vals.len(),
{
    if i == vals.len() - 1 {
        assert(vals.remove(i) =~= vals.drop_last());
    } else {
        let front = vals.drop_last();
        lemma_count_at_least_remove(front, i, q);
        assert(vals.remove(i).drop_last() =~= front.remove(i));
        assert(vals.remove(i).last() == vals.last());
    }
}

/// Entries that are the same up to order count the same.
proof fn lemma_count_at_least_permutation(s: Seq<u64>, t: Seq<u64>, q: u64)
    requires
        s.to_multiset() == t.to_multiset(),
    ensures
        count_at_least(s, q) == count_at_least(t, q),
    decreases s.len(),
{
    broadcast use vstd::multiset::group_multiset_axioms;
    broadcast use vstd::seq_lib::to_multiset_build, vstd::seq_lib::to_multiset_remove,
        vstd::seq_lib::to_multiset_len, vstd::seq_lib::to_multiset_contains;

    if s.len() == 0 {
        assert(t.to_multiset().len() == 0);
    } else {
        let x = s.last();
        let front = s.drop_last();
        assert(s =~= front.push(x));
        assert(t.to_multiset().count(x) > 0);
        assert(t.contains(x));
        let i = choose|i: int| 0 <= i < t.len() && t[i] == x;
        assert(t.remove(i).to_multiset() =~= front.to_multiset());
        lemma_count_at_least_permutation(front, t.remove(i), q);
        lemma_count_at_least_remove(t, i, q);
    }
}

/// When every entry from index `k` on reaches `q`, at least those entries count.
proof fn lemma_count_at_least_from(vals: Seq<u64>, q: u64, k: int)
    requires
        0 <= k <= vals.len(),
        forall|j: int| k <= j < vals.len() ==> vals[j] >= q,
    ensures
        count_at_least(vals, q) >= vals.len() - k,
    decreases vals.len(),
{
    if k < vals.len() {
        lemma_count_at_least_from(vals.drop_last(), q, k);
    }
}

/// When no entry before index `k` reaches `q`, at most the rest count.
proof fn lemma_count_at_least_below(vals: Seq<u64>, q: u64, k: int)
    requires
        0 <= k <= vals.len(),
        forall|j: int| 0 <= j < k ==> vals[j] < q,
    ensures
        count_at_least(vals, q) <= vals.len() - k,
    decreases vals.len(),
{
    if vals.len() > 0 {
        let front = vals.drop_last();
        if k == vals.len() {
            lemma_count_at_least_below(front, q, k - 1);
        } else {
            lemma_count_at_least_below(front, q, k);
        }
    }
}

/// The entry in the middle of an ascending sequence (the lower one of the two
/// middle entries when the length is even) is its majority value.
proof fn lemma_sorted_middle_is_majority_value(vals: Seq<u64>)
    requires
        vals.len() > 0,
        forall|i: int, j: int| 0 <= i < j < vals.len() ==> vals[i] <= vals[j],
    ensures
        is_majority_value(vals, vals[(vals.len() - 1) / 2]),
{
    let n = vals.len() as int;
    let m = (n - 1) / 2;
    let q = vals[m];
    lemma_count_at_least_from(vals, q, m);
    assert forall|j: int|
        0 <= j < n && 2 * count_at_least(vals, vals[j]) > n implies vals[j] <= q by {
        if vals[j] > q {
            lemma_count_at_least_below(vals, vals[j], m + 1);
        }
    }
}

/// The majority value does not depend on the order of the entries.
proof fn lemma_majority_value_permutation(s: Seq<u64>, t: Seq<u64>, q: u64)
    requires
        s.to_multiset() == t.to_multiset(),
        is_majority_value(s, q),
    ensures
        is_majority_value(t, q),
{
    vstd::seq_lib::to_multiset_len(s);
    vstd::seq_lib::to_multiset_len(t);
    lemma_count_at_least_permutation(s, t, q);
    vstd::seq_lib::to_multiset_contains(s, q);
    vstd::seq_lib::to_multiset_contains(t, q);
    assert(s.contains(q));
    assert forall|j: int|
        0 <= j < t.len() && 2 * count_at_least(t, t[j]) > t.len() implies t[j] <= q by {
        vstd::seq_lib::to_multiset_contains(s, t[j]);
        vstd::seq_lib::to_multiset_contains(t, t[j]);
        assert(t.contains(t[j]));
        let i = choose|i: int| 0 <= i < s.len() && s[i] == t[j];
        lemma_count_at_least_permutation(s, t, t[j]);
    }
}

/// Counting entries of `vals` is counting the keys of `m` that `ks` lists.
proof fn lemma_count_matches_keys(m: Map<ServerID, u64>, ks: Seq<ServerID>, vals: Seq<u64>, q: u64)
    requires
        ks.no_duplicates(),
        vals.len() == ks.len(),
        forall|j: int| 0 <= j < ks.len() ==> #[trigger] m.contains_key(ks[j]),
        forall|j: int| 0 <= j < ks.len() ==> vals[j] == m[ks[j]],
    ensures
        count_at_least(vals, q) == ks.to_set().filter(|k: ServerID| m[k] >= q).len(),
        ks.to_set().filter(|k: ServerID| m[k] >= q).finite(),
    decreases ks.len(),
{
    broadcast use vstd::set::group_set_axioms;
    broadcast use vstd::seq_lib::seq_to_set_is_finite;

    let f = |k: ServerID| m[k] >= q;
    if ks.len() == 0 {
        assert(ks.to_set().filter(f) =~= Set::<ServerID>::empty());
    } else {
        let front = ks.drop_last();
        let vfront = vals.drop_last();
        let last = ks.last();
        assert forall|j: int| 0 <= j < front.len() implies #[trigger] m.contains_key(front[j]) by {
            assert(front[j] == ks[j]);
            assert(m.contains_key(ks[j]));
        }
        assert forall|j: int| 0 <= j < front.len() implies vfront[j] == m[front[j]] by {
            assert(front[j] == ks[j]);
            assert(vfront[j] == vals[j]);
        }
        lemma_count_matches_keys(m, front, vfront, q);
        assert(ks.to_set() =~= front.to_set().insert(last)) by {
            assert(ks == front.push(last));
        }
        assert(!front.to_set().contains(last)) by {
            if front.to_set().contains(last) {
                let j = choose|j: int| 0 <= j < front.len() && front[j] == last;
                assert(ks[j] == ks[ks.len() - 1]);
            }
        }
        if m[last] >= q {
            assert(ks.to_set().filter(f) =~= front.to_set().filter(f).insert(last));
        } else {
            assert(ks.to_set().filter(f) =~= front.to_set().filter(f));
        }
    }
}

/// What the majority value of the listed match indexes says of the map.
proof fn lemma_majority_value_is_quorum_match(
    m: Map<ServerID, u64>,
    ks: Seq<ServerID>,
    vals: Seq<u64>,
    q: u64,
)
    requires
        ks.no_duplicates(),
        ks.to_set() == m.dom(),
        vals.len() == ks.len(),
        forall|j: int| 0 <= j < ks.len() ==> vals[j] == m[ks[j]],
        is_majority_value(vals, q),
    ensures
        is_quorum_match_index(m, q),
        quorum_match_index(m) == q,
{
    ks.unique_seq_to_set();
    assert forall|j: int| 0 <= j < ks.len() implies #[trigger] m.contains_key(ks[j]) by {
        assert(ks.to_set().contains(ks[j]));
    }
    assert forall|x: u64| count_at_least(vals, x) == voters_at_least(m, x).len() by {
        lemma_count_matches_keys(m, ks, vals, x);
    }
    let j = choose|j: int| 0 <= j < vals.len() && vals[j] == q;
    assert(m.dom().contains(ks[j]) && m[ks[j]] == q);
    assert forall|k: ServerID| m.dom().contains(k) && stored_by_quorum(m, m[k]) implies m[k] <= q by {
        assert(ks.to_set().contains(k));
        let i = choose|i: int| 0 <= i < ks.len() && ks[i] == k;
        assert(vals[i] == m[k]);
    }
    lemma_quorum_match_index_unique(m, q);
}

/// Sorts `v` in ascending order with `slice::sort`: afterwards it holds the
/// same entries, each no larger than the ones after it.
#[verifier::external_body]
fn sort_ascending(v: &mut Vec<u64>)
    ensures
        final(v)@.to_multiset() == old(v)@.to_multiset(),
        forall|i: int, j: int| 0 <= i < j < final(v)@.len() ==> final(v)@[i] <= final(v)@[j],
{
    v.sort();
}

/// The ids of the voters in `servers`.
pub open spec fn voter_ids(servers: Seq<ServerView>) -> Set<ServerID> {
    Set::new(
        |id: ServerID|
            exists|i: int|
                0 <= i < servers.len() && servers[i].id == id && servers[i].suffrage
                    == ServerSuffrage::Voter,
    )
}

/// The match indexes of a configuration's voters: what `old` knew of each voter,
/// 0 for a voter it did not know.
pub open spec fn carried_match_indexes(
    servers: Seq<ServerView>,
    old: Map<ServerID, u64>,
) -> Map<ServerID, u64> {
    voter_ids(servers).mk_map(
        |id: ServerID|
            if old.contains_key(id) {
                old[id]
            } else {
                0u64
            },
    )
}

/// The `()` messages waiting on the channel whose receiving half is `rx`.
pub uninterp spec fn waiting_notices(rx: UnboundedReceiver<()>) -> nat;

/// The receiving half `rx` was closed: no send to its channel succeeds.
pub uninterp spec fn receiver_closed(rx: UnboundedReceiver<()>) -> bool;

/// `tx` sends into the channel that `rx` receives from.
pub uninterp spec fn commit_channel_pair(
    tx: UnboundedSender<()>,
    rx: UnboundedReceiver<()>,
) -> bool;

/// `tokio::sync::mpsc::unbounded_channel`: a new channel, its sending and its
/// receiving half, with nothing waiting and the receiver open.
#[verifier::external_body]
fn open_commit_channel() -> (r: (UnboundedSender<()>, UnboundedReceiver<()>))
    ensures
        commit_channel_pair(r.0, r.1),
        waiting_notices(r.1) == 0,
        !receiver_closed(r.1),
{
    tokio::sync::mpsc::unbounded_channel::<()>()
}

/// `UnboundedSender::send` of `()`: wakes whoever waits for the commit index
/// to advance. While the receiving half `commit_rx_ch` of the same channel is
/// open the message is queued on it (other holders of the sending half may
/// queue more meanwhile); a closed receiver refuses it, and the failure is
/// ignored, as nothing waits then. The receiving half is passed to show where
/// the message goes; nothing else is done with it.
#[verifier::external_body]
#[allow(unused_variables)]
fn notify_commit(commit_tx_ch: &UnboundedSender<()>, commit_rx_ch: &mut UnboundedReceiver<()>)
    ensures
        receiver_closed(*final(commit_rx_ch)) == receiver_closed(*old(commit_rx_ch)),
        commit_channel_pair(*commit_tx_ch, *final(commit_rx_ch)) == commit_channel_pair(
            *commit_tx_ch,
            *old(commit_rx_ch),
        ),
        waiting_notices(*final(commit_rx_ch)) >= waiting_notices(*old(commit_rx_ch)),
        commit_channel_pair(*commit_tx_ch, *old(commit_rx_ch)) && !receiver_closed(
            *old(commit_rx_ch),
        ) ==> waiting_notices(*final(commit_rx_ch)) >= waiting_notices(*old(commit_rx_ch)) + 1,
{
    let _ = commit_tx_ch.send(());
}

/// A new commit channel: the sending half for `Commitment::new`, and the
/// receiving half on which it announces each advance of the commit index.
pub fn commit_channel() -> (r: (UnboundedSender<()>, UnboundedReceiver<()>))
    ensures
        commit_channel_pair(r.0, r.1),
        waiting_notices(r.1) == 0,
        !receiver_closed(r.1),
{
    open_commit_channel()
}

/// `Commitment` is used to advance the leader's commit index. The leader and
/// replication routines report in newly written entries with `match_server`, and
/// this notifies on `commit_rx_ch` when the commit index has advanced.
pub struct Commitment {
    /// notified when commit_index increases
    commit_rx_ch: UnboundedReceiver<()>,
    commit_tx_ch: UnboundedSender<()>,
    /// voter ID to log index: the server stores up through this log entry
    match_indexes: HashMap<ServerID, u64>,
    /// a quorum stores up through this log entry. monotonically increases.
    commit_index: u64,
    /// the first index of this leader's term: this needs to be replicated to a
    /// majority of the cluster before this leader may mark anything committed
    /// (per Raft's commitment rule)
    start_index: u64,
    /// How many times the commit index advance was announced on `commit_tx_ch`.
    notifications: Ghost<nat>,
}

/// The state a `Commitment` tracks.
pub struct CommitmentView {
    pub match_indexes: Map<ServerID, u64>,
    pub commit_index: u64,
    pub start_index: u64,
}

impl View for Commitment {
    type V = CommitmentView;

    closed spec fn view(&self) -> CommitmentView {
        CommitmentView {
            match_indexes: self.match_indexes@,
            commit_index: self.commit_index,
            start_index: self.start_index,
        }
    }
}

/// The commit index is 0 or has reached the first index of the leader's term.
pub open spec fn commit_respects_start(c: CommitmentView) -> bool {
    c.commit_index == 0 || c.commit_index >= c.start_index
}

/// `vals` lists the match indexes of `m`, one entry per voter, in the order of `ks`.
pub open spec fn lists_match_indexes(m: Map<ServerID, u64>, ks: Seq<ServerID>, vals: Seq<u64>) -> bool {
    &&& ks.no_duplicates()
    &&& ks.to_set() == m.dom()
    &&& vals.len() == ks.len()
    &&& forall|j: int| 0 <= j < ks.len() ==> vals[j] == m[ks[j]]
}

/// Collects the match indexes of `m`, one entry per voter.
fn matched_indexes(m: &HashMap<ServerID, u64>) -> (r: Vec<u64>)
    ensures
        exists|ks: Seq<ServerID>| lists_match_indexes(m@, ks, r@),
{
    let mut matched: Vec<u64> = Vec::new();
    let ghost ks: Seq<ServerID> = m.keys().remaining().unref();
    for k in it: m.keys()
        invariant
            ks == it.seq().unref(),
            ks.to_set() == m@.dom(),
            ks.len() == it.seq().len(),
            matched@.len() == it.index(),
            forall|j: int| 0 <= j < it.index() ==> matched@[j] == m@[ks[j]],
    {
        assert(ks[it.index()] == *k);
        assert(ks.to_set().contains(*k));
        let v = *m.get(k).unwrap();
        matched.push(v);
    }
    assert(lists_match_indexes(m@, ks, matched@));
    matched
}


impl Commitment {
    /// How many times an advance of the commit index has been announced on the
    /// commit channel: one message for each advance.
    pub closed spec fn notified(&self) -> nat {
        self.notifications@
    }

    /// The receiving end of the commit channel.
    pub closed spec fn receiver(&self) -> UnboundedReceiver<()> {
        self.commit_rx_ch
    }

    /// The sending end of the commit channel.
    pub closed spec fn sender(&self) -> UnboundedSender<()> {
        self.commit_tx_ch
    }

    /// The commit channel's halves belong together: what is sent is received
    /// on the receiving end.
    pub closed spec fn linked(&self) -> bool {
        commit_channel_pair(self.commit_tx_ch, self.commit_rx_ch)
    }

    /// The announcements waiting on the receiving end.
    pub closed spec fn notices(&self) -> nat {
        waiting_notices(self.commit_rx_ch)
    }

    /// The receiving end was closed, so announcements are refused.
    pub closed spec fn notices_closed(&self) -> bool {
        receiver_closed(self.commit_rx_ch)
    }

    /// The receiving end of the commit channel, which gets a message each time
    /// the commit index advances.
    pub fn commit_rx_ch(&mut self) -> (r: &mut UnboundedReceiver<()>)
        ensures
            *r == old(self).receiver(),
            final(self).receiver() == *final(r),
            final(self).notices() == waiting_notices(*final(r)),
            final(self).notices_closed() == receiver_closed(*final(r)),
            final(self).linked() == commit_channel_pair(old(self).sender(), *final(r)),
            final(self)@ == old(self)@,
            final(self).notified() == old(self).notified(),
    {
        &mut self.commit_rx_ch
    }

    /// Tracks the voters of `cfg`, none of which has stored anything yet, for a
    /// leader whose term starts at `start_index`.
    pub fn new(
        commit_tx_ch: UnboundedSender<()>,
        commit_rx_ch: UnboundedReceiver<()>,
        cfg: Configuration,
        start_index: u64,
    ) -> (r: Self)
        ensures
            r@.match_indexes == carried_match_indexes(cfg@, Map::empty()),
            forall|id: ServerID|
                #[trigger] r@.match_indexes.contains_key(id) <==> exists|i: int|
                    0 <= i < cfg@.len() && cfg@[i].id == id && cfg@[i].suffrage
                        == ServerSuffrage::Voter,
            forall|id: ServerID| #[trigger] r@.match_indexes.contains_key(id) ==> r@.match_indexes[id] == 0,
            r@.commit_index == 0,
            r@.start_index == start_index,
            commit_respects_start(r@),
            r.notified() == 0,
            r.receiver() == commit_rx_ch,
            r.sender() == commit_tx_ch,
            r.linked() == commit_channel_pair(commit_tx_ch, commit_rx_ch),
            r.notices() == waiting_notices(commit_rx_ch),
            r.notices_closed() == receiver_closed(commit_rx_ch),
    {
        let match_indexes = Self::voter_match_indexes(&cfg, &HashMap::new());
        Self {
            commit_rx_ch,
            commit_tx_ch,
            match_indexes,
            commit_index: 0,
            start_index,
            notifications: Ghost(0),
        }
    }

    /// The match indexes of the voters of `cfg`, carried over from `old`.
    fn voter_match_indexes(cfg: &Configuration, old: &HashMap<ServerID, u64>) -> (r: HashMap<
        ServerID,
        u64,
    >)
        ensures
            r@ == carried_match_indexes(cfg@, old@),
    {
        let ghost s = cfg@;
        let mut m = HashMap::<ServerID, u64>::new();
        let n = cfg.servers.len();
        let mut i: usize = 0;
        while i < n
            invariant
                n == cfg.servers.len(),
                s == cfg@,
                0 <= i <= n,
                forall|id: ServerID|
                    m@.contains_key(id) <==> exists|j: int|
                        0 <= j < i && s[j].id == id && s[j].suffrage == ServerSuffrage::Voter,
                forall|id: ServerID|
                    #[trigger] m@.contains_key(id) ==> m@[id] == if old@.contains_key(id) {
                        old@[id]
                    } else {
                        0u64
                    },
            decreases n - i,
        {
            let srv = &cfg.servers[i];
            assert(s[i as int] == srv@);
            if srv.suffrage == ServerSuffrage::Voter {
                let v = match old.get(&srv.id) {
                    Some(v) => *v,
                    None => 0u64,
                };
                m.insert(srv.id, v);
            }
            i = i + 1;
        }
        assert(m@ =~= carried_match_indexes(s, old@));
        m
    }

    /// Called when a new cluster membership configuration is created: it will be
    /// used to determine `Commitment` from now on. `cfg` is the servers in the
    /// cluster; voters keep what they had matched, new voters start at 0.
    pub fn set_configuration(&mut self, cfg: Configuration)
        ensures
            final(self)@.match_indexes == carried_match_indexes(cfg@, old(self)@.match_indexes),
            forall|id: ServerID|
                #[trigger] final(self)@.match_indexes.contains_key(id) <==> exists|i: int|
                    0 <= i < cfg@.len() && cfg@[i].id == id && cfg@[i].suffrage
                        == ServerSuffrage::Voter,
            forall|id: ServerID|
                #[trigger] final(self)@.match_indexes.contains_key(id) ==> final(self)@.match_indexes[id]
                    == if old(self)@.match_indexes.contains_key(id) {
                    old(self)@.match_indexes[id]
                } else {
                    0u64
                },
            final(self)@.start_index == old(self)@.start_index,
            final(self)@.commit_index == recalculated_commit(
                final(self)@.match_indexes,
                old(self)@.commit_index,
                old(self)@.start_index,
            ),
            final(self)@.commit_index >= old(self)@.commit_index,
            final(self)@.commit_index != old(self)@.commit_index ==> stored_by_quorum(
                final(self)@.match_indexes,
                final(self)@.commit_index,
            ) && final(self)@.commit_index >= final(self)@.start_index,
            commit_respects_start(old(self)@) ==> commit_respects_start(final(self)@),
            final(self).notified() == old(self).notified() + if final(self)@.commit_index
                > old(self)@.commit_index {
                1nat
            } else {
                0nat
            },
            final(self)@.commit_index == old(self)@.commit_index ==> final(self).receiver()
                == old(self).receiver(),
            final(self).linked() == old(self).linked(),
            final(self).notices_closed() == old(self).notices_closed(),
            final(self).notices() >= old(self).notices(),
            final(self)@.commit_index > old(self)@.commit_index && old(self).linked()
                && !old(self).notices_closed() ==> final(self).notices() >= old(self).notices() + 1,
    {
        let new_match_indexes = Self::voter_match_indexes(&cfg, &self.match_indexes);
        self.match_indexes = new_match_indexes;
        self.recalculate();
    }

    /// The index of the last entry a quorum of the voters stores. Called by the
    /// leader after `commit_rx_ch` is notified.
    pub fn get_commit_index(&self) -> (r: u64)
        ensures
            r == self@.commit_index,
    {
        self.commit_index
    }

    /// `match_server` is called once a server completes writing entries to disk: either the
    /// leader has written the new entry or a follower has replied to an
    /// AppendEntries RPC. The given server's disk agrees with this server's log up
    /// through the given index. Servers that do not vote, and indexes that do not
    /// move a voter forward, change nothing.
    pub fn match_server(&mut self, server: ServerID, match_index: u64)
        ensures
            ({
                let m = old(self)@.match_indexes;
                if m.contains_key(server) && match_index > m[server] {
                    &&& final(self)@.match_indexes == m.insert(server, match_index)
                    &&& final(self)@.start_index == old(self)@.start_index
                    &&& final(self)@.commit_index == recalculated_commit(
                        final(self)@.match_indexes,
                        old(self)@.commit_index,
                        old(self)@.start_index,
                    )
                } else {
                    final(self)@ == old(self)@
                }
            }),
            final(self)@.commit_index >= old(self)@.commit_index,
            final(self)@.commit_index != old(self)@.commit_index ==> stored_by_quorum(
                final(self)@.match_indexes,
                final(self)@.commit_index,
            ) && final(self)@.commit_index >= final(self)@.start_index,
            commit_respects_start(old(self)@) ==> commit_respects_start(final(self)@),
            final(self).notified() == old(self).notified() + if final(self)@.commit_index
                > old(self)@.commit_index {
                1nat
            } else {
                0nat
            },
            final(self)@.commit_index == old(self)@.commit_index ==> final(self).receiver()
                == old(self).receiver(),
            final(self).linked() == old(self).linked(),
            final(self).notices_closed() == old(self).notices_closed(),
            final(self).notices() >= old(self).notices(),
            final(self)@.commit_index > old(self)@.commit_index && old(self).linked()
                && !old(self).notices_closed() ==> final(self).notices() >= old(self).notices() + 1,
    {
        broadcast use vstd::std_specs::hash::group_hash_axioms;

        match self.match_indexes.get(&server) {
            None => {},
            Some(prev) => {
                if match_index > *prev {
                    self.match_indexes.insert(server, match_index);
                    self.recalculate();
                }
            },
        }
    }

    /// Calculates the new `commit_index` from `match_indexes`.
    fn recalculate(&mut self)
        ensures
            final(self)@.match_indexes == old(self)@.match_indexes,
            final(self)@.start_index == old(self)@.start_index,
            final(self)@.commit_index == recalculated_commit(
                old(self)@.match_indexes,
                old(self)@.commit_index,
                old(self)@.start_index,
            ),
            final(self)@.commit_index >= old(self)@.commit_index,
            final(self)@.commit_index != old(self)@.commit_index ==> stored_by_quorum(
                final(self)@.match_indexes,
                final(self)@.commit_index,
            ) && final(self)@.commit_index >= final(self)@.start_index,
            commit_respects_start(old(self)@) ==> commit_respects_start(final(self)@),
            final(self).notified() == old(self).notified() + if final(self)@.commit_index
                > old(self)@.commit_index {
                1nat
            } else {
                0nat
            },
            final(self)@.commit_index == old(self)@.commit_index ==> final(self).receiver()
                == old(self).receiver(),
            final(self).linked() == old(self).linked(),
            final(self).notices_closed() == old(self).notices_closed(),
            final(self).notices() >= old(self).notices(),
            final(self)@.commit_index > old(self)@.commit_index && old(self).linked()
                && !old(self).notices_closed() ==> final(self).notices() >= old(self).notices() + 1,
    {
        let size = self.match_indexes.len();
        if size == 0 {
            return ;
        }
        let mut matched = matched_indexes(&self.match_indexes);
        let ghost ks = choose|ks: Seq<ServerID>| lists_match_indexes(self.match_indexes@, ks, matched@);
        let ghost unsorted = matched@;
        proof {
            ks.unique_seq_to_set();
        }
        sort_ascending(&mut matched);
        proof {
            broadcast use vstd::seq_lib::to_multiset_len;
            assert(matched@.len() == unsorted.len()) by {
                assert(matched@.to_multiset().len() == unsorted.to_multiset().len());
            }
        }
        let quorum_match_index = matched[(matched.len() - 1) / 2];
        proof {
            lemma_sorted_middle_is_majority_value(matched@);
            lemma_majority_value_permutation(matched@, unsorted, quorum_match_index);
            lemma_majority_value_is_quorum_match(self.match_indexes@, ks, unsorted, quorum_match_index);
        }
        if quorum_match_index > self.commit_index && quorum_match_index >= self.start_index {
            self.commit_index = quorum_match_index;
            notify_commit(&self.commit_tx_ch, &mut self.commit_rx_ch);
            self.notifications = Ghost(self.notifications@ + 1);
        }
    }
}

/// Only voters count toward the commit quorum: the match indexes tracked for a
/// configuration are keyed by exactly the ids of its `Voter` servers (a
/// `Staging` or `Nonvoter` server is never tracked), each keeping what was
/// known of it and starting at 0 otherwise.
pub proof fn law_only_voters_are_tracked(servers: Seq<ServerView>, old: Map<ServerID, u64>)
    ensures
        forall|id: ServerID|
            #[trigger] carried_match_indexes(servers, old).contains_key(id) <==> exists|i: int|
                0 <= i < servers.len() && servers[i].id == id && servers[i].suffrage
                    == ServerSuffrage::Voter,
        forall|id: ServerID|
            #[trigger] carried_match_indexes(servers, old).contains_key(id) ==> carried_match_indexes(
                servers,
                old,
            )[id] == if old.contains_key(id) {
                old[id]
            } else {
                0u64
            },
{
}

/// Listing a finite set names each member once.
proof fn lemma_to_seq_no_duplicates(s: Set<ServerID>)
    requires
        s.finite(),
    ensures
        s.to_seq().no_duplicates(),
        s.to_seq().to_set() == s,
    decreases s.len(),
{
    broadcast use vstd::set::group_set_axioms;

    s.lemma_to_seq_to_set_id();
    if s.len() != 0 {
        let x = s.choose();
        let rest = s.remove(x);
        lemma_to_seq_no_duplicates(rest);
        let front = Seq::<ServerID>::empty().push(x);
        let tail = rest.to_seq();
        assert(s.to_seq() == front + tail);
        assert forall|i: int, j: int|
            0 <= i < j < s.to_seq().len() implies s.to_seq()[i] != s.to_seq()[j] by {
            if i == 0 {
                assert(s.to_seq()[j] == tail[j - 1]);
                assert(tail.to_set().contains(tail[j - 1]));
            } else {
                assert(s.to_seq()[i] == tail[i - 1]);
                assert(s.to_seq()[j] == tail[j - 1]);
            }
        }
    }
}

/// Every non-empty set of voters has a highest index that a majority of them
/// store.
proof fn lemma_quorum_match_index_exists(m: Map<ServerID, u64>) -> (q: u64)
    requires
        m.dom().finite(),
        m.dom().len() > 0,
    ensures
        is_quorum_match_index(m, q),
        quorum_match_index(m) == q,
{
    broadcast use vstd::seq_lib::to_multiset_len;

    let ks = m.dom().to_seq();
    lemma_to_seq_no_duplicates(m.dom());
    ks.unique_seq_to_set();
    let vals = Seq::new(ks.len(), |i: int| m[ks[i]]);
    let leq = |a: u64, b: u64| a <= b;
    assert(vstd::relations::total_ordering(leq));
    vals.lemma_sort_by_ensures(leq);
    let sorted = vals.sort_by(leq);
    assert(sorted.len() == vals.len()) by {
        assert(sorted.to_multiset().len() == vals.to_multiset().len());
    }
    assert forall|i: int, j: int| 0 <= i < j < sorted.len() implies sorted[i] <= sorted[j] by {
        assert(leq(sorted[i], sorted[j]));
    }
    lemma_sorted_middle_is_majority_value(sorted);
    let q = sorted[(sorted.len() - 1) / 2];
    lemma_majority_value_permutation(sorted, vals, q);
    lemma_majority_value_is_quorum_match(m, ks, vals, q);
    q
}

/// The commit index only moves up, and only to an index that more than half
/// of the voters store and that is at or past the first index of the leader's
/// term; an index that such a majority stores, above the commit index and past
/// the start, is never passed over.
pub proof fn law_commit_advances_to_quorum_index(m: Map<ServerID, u64>, commit: u64, start: u64)
    requires
        m.dom().finite(),
    ensures
        recalculated_commit(m, commit, start) >= commit,
        recalculated_commit(m, commit, start) != commit ==> recalculated_commit(m, commit, start)
            >= start && 2 * m.dom().filter(
            |k: ServerID| m[k] >= recalculated_commit(m, commit, start),
        ).len() > m.dom().len(),
        forall|k: ServerID|
            #[trigger] m.dom().contains(k) && 2 * m.dom().filter(|j: ServerID| m[j] >= m[k]).len()
                > m.dom().len() && m[k] > commit && m[k] >= start ==> recalculated_commit(
                m,
                commit,
                start,
            ) >= m[k],
{
    if m.dom().len() > 0 {
        let q = lemma_quorum_match_index_exists(m);
        assert(m.dom().filter(|k: ServerID| m[k] >= q) =~= voters_at_least(m, q));
        assert forall|k: ServerID|
            #[trigger] m.dom().contains(k) && 2 * m.dom().filter(|j: ServerID| m[j] >= m[k]).len()
                > m.dom().len() && m[k] > commit && m[k] >= start implies recalculated_commit(
            m,
            commit,
            start,
        ) >= m[k] by {
            assert(m.dom().filter(|j: ServerID| m[j] >= m[k]) =~= voters_at_least(m, m[k]));
            assert(stored_by_quorum(m, m[k]));
        }
    } else {
        assert forall|k: ServerID| !#[trigger] m.dom().contains(k) by {
            if m.dom().contains(k) {
                assert(m.dom().len() > 0) by {
                    vstd::set_lib::lemma_set_empty_equivalency_len(m.dom());
                }
            }
        }
    }
}

} // verus!
