//! The price store: a table from (pair, source) to the most recent observation
//! from that source, with the source's priority. Keys are unique; an upsert
//! replaces the whole entry; staleness is evaluated at read time, never by
//! eviction. Selection picks the fresh entry of numerically smallest priority,
//! breaking ties by lexicographic order of the source identifier.

use vstd::prelude::*;

use crate::freshness::is_fresh;
use crate::freshness::spec_is_fresh;
use crate::models::PriceData;
use crate::strutil::lemma_lex_connex;
use crate::strutil::lemma_lex_irreflexive;
use crate::strutil::lemma_lex_transitive;
use crate::strutil::lex_lt;
use crate::strutil::str_eq;
use crate::strutil::str_lt;

verus! {

/// The most recent observation stored under one (pair, source) key, together
/// with that source's configured priority (lower is more preferred).
#[derive(Debug, Clone)]
pub struct PriceEntry {
    pub data: PriceData,
    pub priority: u32,
}

/// An entry is valid when its observation is.
pub open spec fn entry_wf(e: PriceEntry) -> bool {
    e.data.wf()
}

/// Whether an entry is stored under the key (pair, source).
pub open spec fn same_key(e: PriceEntry, pair: Seq<char>, source: Seq<char>) -> bool {
    e.data.pair@ == pair && e.data.source@ == source
}

/// Index of the first entry under the key, or -1 when the key is absent.
pub open spec fn spec_key_index(s: Seq<PriceEntry>, pair: Seq<char>, source: Seq<char>) -> int
    decreases s.len(),
{
    if s.len() == 0 {
        -1
    } else if same_key(s[0], pair, source) {
        0
    } else {
        let r = spec_key_index(s.drop_first(), pair, source);
        if r < 0 {
            -1
        } else {
            r + 1
        }
    }
}

/// The entry stored under the key, if any.
pub open spec fn spec_find(s: Seq<PriceEntry>, pair: Seq<char>, source: Seq<char>) -> Option<
    PriceEntry,
> {
    let i = spec_key_index(s, pair, source);
    if i >= 0 {
        Some(s[i])
    } else {
        None
    }
}

/// What an upsert leaves in the table: the entry replaces the one under its
/// key, or is appended when the key is new.
pub open spec fn spec_update(s: Seq<PriceEntry>, e: PriceEntry) -> Seq<PriceEntry> {
    let i = spec_key_index(s, e.data.pair@, e.data.source@);
    if i >= 0 {
        s.update(i, e)
    } else {
        s.push(e)
    }
}

/// No two entries share a (pair, source) key.
pub open spec fn keys_unique(s: Seq<PriceEntry>) -> bool {
    forall|i: int, j: int|
        0 <= i < j < s.len() ==> !(s[i].data.pair@ == s[j].data.pair@ && s[i].data.source@
            == s[j].data.source@)
}

/// The store's invariant: unique keys and valid entries.
pub open spec fn store_wf(s: Seq<PriceEntry>) -> bool {
    &&& keys_unique(s)
    &&& forall|i: int| 0 <= i < s.len() ==> entry_wf(s[i])
}

/// Whether an entry's observation is fresh.
pub open spec fn spec_fresh_entry(e: PriceEntry, now: int, threshold: int) -> bool {
    spec_is_fresh(e.data.timestamp_millis as int, now, threshold)
}

/// Whether an entry can answer a query for `pair`: right pair and fresh.
pub open spec fn spec_candidate(e: PriceEntry, pair: Seq<char>, now: int, threshold: int) -> bool {
    e.data.pair@ == pair && spec_fresh_entry(e, now, threshold)
}

/// The selection order: smaller priority wins, and among equal priorities the
/// lexicographically smaller source identifier wins.
pub open spec fn spec_better(pa: u32, sa: Seq<char>, pb: u32, sb: Seq<char>) -> bool {
    pa < pb || (pa == pb && lex_lt(sa, sb))
}

/// Whether the store holds any fresh entry at all, for any pair.
pub open spec fn spec_has_fresh(s: Seq<PriceEntry>, now: int, threshold: int) -> bool {
    exists|i: int| 0 <= i < s.len() && spec_fresh_entry(s[i], now, threshold)
}

/// What `spec_key_index` returns: a position in range holding the key and
/// preceded by no other position holding it, or -1 when no position holds it.
pub proof fn lemma_key_index_props(s: Seq<PriceEntry>, pair: Seq<char>, source: Seq<char>)
    ensures
        -1 <= spec_key_index(s, pair, source) < s.len(),
        spec_key_index(s, pair, source) >= 0 ==> same_key(
            s[spec_key_index(s, pair, source)],
            pair,
            source,
        ),
        forall|j: int|
            0 <= j < s.len() && same_key(s[j], pair, source) ==> 0 <= spec_key_index(
                s,
                pair,
                source,
            ) <= j,
    decreases s.len(),
{
    if s.len() > 0 && !same_key(s[0], pair, source) {
        lemma_key_index_props(s.drop_first(), pair, source);
        let r = spec_key_index(s.drop_first(), pair, source);
        if r >= 0 {
            assert(s.drop_first()[r] == s[r + 1]);
        }
        assert forall|j: int| 0 <= j < s.len() && same_key(s[j], pair, source) implies 0
            <= spec_key_index(s, pair, source) <= j by {
            assert(j != 0);
            assert(s.drop_first()[j - 1] == s[j]);
        }
    }
}

/// `spec_key_index` finds exactly the first position holding the key.
pub proof fn lemma_key_index_first_match(
    s: Seq<PriceEntry>,
    pair: Seq<char>,
    source: Seq<char>,
    i: int,
)
    requires
        0 <= i < s.len(),
        same_key(s[i], pair, source),
        forall|j: int| 0 <= j < i ==> !same_key(s[j], pair, source),
    ensures
        spec_key_index(s, pair, source) == i,
    decreases s.len(),
{
    if i > 0 {
        assert(forall|j: int|
            0 <= j < s.drop_first().len() ==> s.drop_first()[j] == s[j + 1]);
        lemma_key_index_first_match(s.drop_first(), pair, source, i - 1);
    }
}

/// An upsert stores its entry under its key and leaves every other key alone.
pub proof fn lemma_update_find(s: Seq<PriceEntry>, e: PriceEntry, pair: Seq<char>, source: Seq<char>)
    ensures
        pair == e.data.pair@ && source == e.data.source@ ==> spec_find(
            spec_update(s, e),
            pair,
            source,
        ) == Some(e),
        !(pair == e.data.pair@ && source == e.data.source@) ==> spec_find(
            spec_update(s, e),
            pair,
            source,
        ) == spec_find(s, pair, source),
{
    let i = spec_key_index(s, e.data.pair@, e.data.source@);
    let t = spec_update(s, e);
    lemma_key_index_props(s, e.data.pair@, e.data.source@);
    if pair == e.data.pair@ && source == e.data.source@ {
        if i >= 0 {
            assert(forall|j: int| 0 <= j < i ==> !same_key(t[j], pair, source));
            lemma_key_index_first_match(t, pair, source, i);
        } else {
            assert(forall|j: int| 0 <= j < s.len() ==> !same_key(t[j], pair, source));
            lemma_key_index_first_match(t, pair, source, s.len() as int);
        }
    } else {
        let k = spec_key_index(s, pair, source);
        lemma_key_index_props(s, pair, source);
        if k >= 0 {
            // The other key keeps its first position: the replaced or appended
            // entry never holds it.
            assert(!same_key(e, pair, source));
            assert(same_key(t[k], pair, source));
            assert(forall|j: int| 0 <= j < k ==> !same_key(t[j], pair, source));
            lemma_key_index_first_match(t, pair, source, k);
        } else {
            assert(forall|j: int| 0 <= j < t.len() ==> !same_key(t[j], pair, source));
            lemma_key_index_props(t, pair, source);
        }
    }
}

/// An upsert preserves the store invariant.
pub proof fn lemma_update_preserves_wf(s: Seq<PriceEntry>, e: PriceEntry)
    requires
        store_wf(s),
        entry_wf(e),
    ensures
        store_wf(spec_update(s, e)),
{
    let i = spec_key_index(s, e.data.pair@, e.data.source@);
    let t = spec_update(s, e);
    lemma_key_index_props(s, e.data.pair@, e.data.source@);
    if i >= 0 {
        assert(same_key(s[i], e.data.pair@, e.data.source@));
        assert forall|a: int, b: int| 0 <= a < b < t.len() implies !(t[a].data.pair@
            == t[b].data.pair@ && t[a].data.source@ == t[b].data.source@) by {
            assert(t[a] == if a == i { e } else { s[a] });
            assert(t[b] == if b == i { e } else { s[b] });
        }
    } else {
        assert forall|a: int, b: int| 0 <= a < b < t.len() implies !(t[a].data.pair@
            == t[b].data.pair@ && t[a].data.source@ == t[b].data.source@) by {
            if b == s.len() {
                assert(t[b] == e);
                assert(t[a] == s[a]);
                assert(!same_key(s[a], e.data.pair@, e.data.source@));
            } else {
                assert(t[a] == s[a]);
                assert(t[b] == s[b]);
            }
        }
    }
}

/// The selection order is transitive.
pub proof fn lemma_better_transitive(
    pa: u32,
    sa: Seq<char>,
    pb: u32,
    sb: Seq<char>,
    pc: u32,
    sc: Seq<char>,
)
    requires
        spec_better(pa, sa, pb, sb),
        spec_better(pb, sb, pc, sc),
    ensures
        spec_better(pa, sa, pc, sc),
{
    if pa == pb && pb == pc {
        lemma_lex_transitive(sa, sb, sc);
    }
}

/// Applying the same upsert twice leaves the table exactly as one application
/// does.
pub proof fn lemma_update_idempotent(s: Seq<PriceEntry>, e: PriceEntry)
    ensures
        spec_update(spec_update(s, e), e) == spec_update(s, e),
{
    let i = spec_key_index(s, e.data.pair@, e.data.source@);
    let t = spec_update(s, e);
    lemma_key_index_props(s, e.data.pair@, e.data.source@);
    if i >= 0 {
        assert(forall|j: int| 0 <= j < i ==> !same_key(t[j], e.data.pair@, e.data.source@));
        lemma_key_index_first_match(t, e.data.pair@, e.data.source@, i);
        assert(t.update(i, e) =~= t);
    } else {
        assert(forall|j: int| 0 <= j < s.len() ==> !same_key(t[j], e.data.pair@, e.data.source@));
        lemma_key_index_first_match(t, e.data.pair@, e.data.source@, s.len() as int);
        assert(t.update(s.len() as int, e) =~= t);
    }
}

/// A fresh observation is visible to the liveness check the moment it is
/// stored.
pub proof fn lemma_update_makes_fresh_visible(
    s: Seq<PriceEntry>,
    e: PriceEntry,
    now: int,
    threshold: int,
)
    requires
        spec_fresh_entry(e, now, threshold),
    ensures
        spec_has_fresh(spec_update(s, e), now, threshold),
{
    let i = spec_key_index(s, e.data.pair@, e.data.source@);
    let t = spec_update(s, e);
    lemma_key_index_props(s, e.data.pair@, e.data.source@);
    if i >= 0 {
        assert(t[i] == e);
    } else {
        assert(t[s.len() as int] == e);
    }
}

/// An empty store holds nothing fresh.
pub proof fn lemma_empty_store_has_no_fresh_data(now: int, threshold: int)
    ensures
        !spec_has_fresh(Seq::<PriceEntry>::empty(), now, threshold),
{
}

/// The selection order admits one optimum among the candidates of a
/// well-formed store: selection is deterministic and reproducible.
pub proof fn lemma_best_unique(
    s: Seq<PriceEntry>,
    pair: Seq<char>,
    now: int,
    threshold: int,
    i: int,
    j: int,
)
    requires
        store_wf(s),
        0 <= i < s.len(),
        0 <= j < s.len(),
        spec_candidate(s[i], pair, now, threshold),
        spec_candidate(s[j], pair, now, threshold),
        !spec_better(s[j].priority, s[j].data.source@, s[i].priority, s[i].data.source@),
        !spec_better(s[i].priority, s[i].data.source@, s[j].priority, s[j].data.source@),
    ensures
        i == j,
{
    if i != j {
        assert(s[i].priority == s[j].priority);
        if s[i].data.source@ != s[j].data.source@ {
            lemma_lex_connex(s[i].data.source@, s[j].data.source@);
        }
        assert(s[i].data.pair@ == s[j].data.pair@);
        assert(false);
    }
}

/// The table after a whole sequence of upserts, applied in order.
pub open spec fn spec_apply_all(s: Seq<PriceEntry>, ops: Seq<PriceEntry>) -> Seq<PriceEntry>
    decreases ops.len(),
{
    if ops.len() == 0 {
        s
    } else {
        spec_apply_all(spec_update(s, ops[0]), ops.drop_first())
    }
}

/// The last upsert in `ops` that writes the key, if any.
pub open spec fn spec_last_write(ops: Seq<PriceEntry>, pair: Seq<char>, source: Seq<char>) -> Option<
    PriceEntry,
>
    decreases ops.len(),
{
    if ops.len() == 0 {
        None
    } else if same_key(ops.last(), pair, source) {
        Some(ops.last())
    } else {
        spec_last_write(ops.drop_last(), pair, source)
    }
}

/// Peeling the first upsert off `ops` leaves the last write intact, unless the
/// peeled upsert was the only write of the key.
proof fn lemma_last_write_drop_first(ops: Seq<PriceEntry>, pair: Seq<char>, source: Seq<char>)
    requires
        ops.len() > 0,
    ensures
        spec_last_write(ops, pair, source) == (match spec_last_write(
            ops.drop_first(),
            pair,
            source,
        ) {
            Some(e) => Some(e),
            None => if same_key(ops[0], pair, source) {
                Some(ops[0])
            } else {
                None
            },
        }),
    decreases ops.len(),
{
    if ops.len() == 1 {
        assert(ops.last() == ops[0]);
        assert(ops.drop_first().len() == 0);
    } else {
        assert(ops.drop_first().last() == ops.last());
        if !same_key(ops.last(), pair, source) {
            assert(ops.drop_last().drop_first() =~= ops.drop_first().drop_last());
            lemma_last_write_drop_first(ops.drop_last(), pair, source);
            assert(ops.drop_last()[0] == ops[0]);
        }
    }
}

/// Any sequence of upserts keeps the store well-formed: keys stay unique, so
/// the final table holds exactly one entry per touched key.
pub proof fn lemma_apply_all_preserves_wf(s: Seq<PriceEntry>, ops: Seq<PriceEntry>)
    requires
        store_wf(s),
        forall|i: int| 0 <= i < ops.len() ==> entry_wf(ops[i]),
    ensures
        store_wf(spec_apply_all(s, ops)),
    decreases ops.len(),
{
    if ops.len() > 0 {
        lemma_update_preserves_wf(s, ops[0]);
        assert(forall|i: int|
            0 <= i < ops.drop_first().len() ==> ops.drop_first()[i] == ops[i + 1]);
        lemma_apply_all_preserves_wf(spec_update(s, ops[0]), ops.drop_first());
    }
}

/// Last write wins, per key: after any sequence of upserts, each key holds
/// exactly the last upsert addressed to it, and a key no upsert addressed is
/// untouched. In particular, writers that address disjoint keys never lose one
/// another's updates, however their upserts interleave.
pub proof fn lemma_last_write_wins(
    s: Seq<PriceEntry>,
    ops: Seq<PriceEntry>,
    pair: Seq<char>,
    source: Seq<char>,
)
    ensures
        spec_find(spec_apply_all(s, ops), pair, source) == (match spec_last_write(
            ops,
            pair,
            source,
        ) {
            Some(e) => Some(e),
            None => spec_find(s, pair, source),
        }),
    decreases ops.len(),
{
    if ops.len() > 0 {
        let s1 = spec_update(s, ops[0]);
        lemma_last_write_wins(s1, ops.drop_first(), pair, source);
        lemma_update_find(s, ops[0], pair, source);
        lemma_last_write_drop_first(ops, pair, source);
    }
}

/// The in-memory table. The sequence of entries is the store's model; the
/// store invariant keeps its keys unique.
pub struct PriceStore {
    entries: Vec<PriceEntry>,
}

impl View for PriceStore {
    type V = Seq<PriceEntry>;

    closed spec fn view(&self) -> Seq<PriceEntry> {
        self.entries@
    }
}

impl PriceStore {
    /// The store invariant.
    pub open spec fn wf(&self) -> bool {
        store_wf(self@)
    }

    /// An empty store.
    pub fn new() -> (r: Self)
        ensures
            r@ == Seq::<PriceEntry>::empty(),
            r.wf(),
    {
        let r = PriceStore { entries: Vec::new() };
        proof {
            assert(r.entries@ =~= Seq::<PriceEntry>::empty());
        }
        r
    }

    /// Unconditional upsert under the observation's (pair, source) key. The
    /// operation is total: it always succeeds.
    pub fn update(&mut self, data: PriceData, priority: u32)
        requires
            old(self).wf(),
            data.wf(),
        ensures
            final(self)@ == spec_update(old(self)@, (PriceEntry { data, priority })),
            final(self).wf(),
    {
        let entry = PriceEntry { data, priority };
        let n = self.entries.len();
        let mut i: usize = 0;
        while i < n
            invariant
                0 <= i <= n,
                n == self.entries@.len(),
                self@ == old(self)@,
                self.wf(),
                entry == (PriceEntry { data, priority }),
                entry_wf(entry),
                forall|j: int| 0 <= j < i ==> !same_key(self.entries@[j], entry.data.pair@, entry.data.source@),
            decreases n - i,
        {
            let matches_key = str_eq(self.entries[i].data.pair.as_str(), entry.data.pair.as_str())
                && str_eq(self.entries[i].data.source.as_str(), entry.data.source.as_str());
            if matches_key {
                proof {
                    lemma_key_index_first_match(
                        self.entries@,
                        entry.data.pair@,
                        entry.data.source@,
                        i as int,
                    );
                    lemma_update_preserves_wf(self.entries@, entry);
                }
                self.entries.set(i, entry);
                return;
            }
            i += 1;
        }
        proof {
            lemma_key_index_props(self.entries@, entry.data.pair@, entry.data.source@);
            lemma_update_preserves_wf(self.entries@, entry);
        }
        self.entries.push(entry);
    }

    /// Best fresh observation for `pair`: among the entries for the pair that
    /// are fresh at `now_millis`, the one of smallest priority, ties broken by
    /// lexicographic order of the source identifier; the entry's priority is
    /// returned beside the observation. Reports nothing exactly when no entry
    /// for the pair is fresh.
    pub fn get_best(&self, pair: &str, now_millis: i64, threshold_millis: i64) -> (r: Option<
        (PriceData, u32),
    >)
        requires
            self.wf(),
        ensures
            r is None <==> (forall|j: int|
                0 <= j < self@.len() ==> !spec_candidate(
                    self@[j],
                    pair@,
                    now_millis as int,
                    threshold_millis as int,
                )),
            r matches Some((d, prio)) ==> {
                &&& spec_find(self@, pair@, d.source@) == Some((PriceEntry { data: d, priority: prio }))
                &&& spec_candidate(
                    (PriceEntry { data: d, priority: prio }),
                    pair@,
                    now_millis as int,
                    threshold_millis as int,
                )
                &&& forall|j: int|
                    0 <= j < self@.len() && spec_candidate(
                        self@[j],
                        pair@,
                        now_millis as int,
                        threshold_millis as int,
                    ) ==> !spec_better(self@[j].priority, self@[j].data.source@, prio, d.source@)
                &&& d.wf()
            },
    {
        let ghost now = now_millis as int;
        let ghost th = threshold_millis as int;
        let n = self.entries.len();
        let mut best: Option<usize> = None;
        let mut i: usize = 0;
        while i < n
            invariant
                0 <= i <= n,
                n == self.entries@.len(),
                self.wf(),
                now == now_millis as int,
                th == threshold_millis as int,
                best is None ==> (forall|j: int|
                    0 <= j < i ==> !spec_candidate(self.entries@[j], pair@, now, th)),
                best matches Some(b) ==> {
                    &&& b < i
                    &&& spec_candidate(self.entries@[b as int], pair@, now, th)
                    &&& forall|j: int|
                        0 <= j < i && spec_candidate(self.entries@[j], pair@, now, th)
                            ==> !spec_better(
                            self.entries@[j].priority,
                            self.entries@[j].data.source@,
                            self.entries@[b as int].priority,
                            self.entries@[b as int].data.source@,
                        )
                },
            decreases n - i,
        {
            let is_candidate = str_eq(self.entries[i].data.pair.as_str(), pair) && is_fresh(
                self.entries[i].data.timestamp_millis,
                now_millis,
                threshold_millis,
            );
            if is_candidate {
                match best {
                    None => {
                        proof {
                            lemma_lex_irreflexive(self.entries@[i as int].data.source@);
                        }
                        best = Some(i);
                    },
                    Some(b) => {
                        let e_prio = self.entries[i].priority;
                        let b_prio = self.entries[b].priority;
                        let strictly_better = e_prio < b_prio || (e_prio == b_prio && str_lt(
                            self.entries[i].data.source.as_str(),
                            self.entries[b].data.source.as_str(),
                        ));
                        if strictly_better {
                            proof {
                                let s = self.entries@;
                                assert forall|j: int|
                                    0 <= j < i + 1 && spec_candidate(s[j], pair@, now, th)
                                        implies !spec_better(
                                        s[j].priority,
                                        s[j].data.source@,
                                        s[i as int].priority,
                                        s[i as int].data.source@,
                                    ) by {
                                    lemma_lex_irreflexive(s[i as int].data.source@);
                                    if j < i && spec_better(
                                        s[j].priority,
                                        s[j].data.source@,
                                        s[i as int].priority,
                                        s[i as int].data.source@,
                                    ) {
                                        lemma_better_transitive(
                                            s[j].priority,
                                            s[j].data.source@,
                                            s[i as int].priority,
                                            s[i as int].data.source@,
                                            s[b as int].priority,
                                            s[b as int].data.source@,
                                        );
                                    }
                                }
                            }
                            best = Some(i);
                        }
                    },
                }
            }
            i += 1;
        }
        match best {
            None => None,
            Some(b) => {
                let chosen = &self.entries[b];
                let d = chosen.data.duplicate();
                proof {
                    let s = self.entries@;
                    assert forall|j: int| 0 <= j < b implies !same_key(s[j], pair@, d.source@) by {
                        assert(s[b as int].data.pair@ == pair@);
                    }
                    lemma_key_index_first_match(s, pair@, d.source@, b as int);
                }
                Some((d, chosen.priority))
            },
        }
    }

    /// Whether any entry in the store, for any pair, is fresh at `now_millis`.
    pub fn has_fresh(&self, now_millis: i64, threshold_millis: i64) -> (r: bool)
        ensures
            r == spec_has_fresh(self@, now_millis as int, threshold_millis as int),
    {
        let ghost now = now_millis as int;
        let ghost th = threshold_millis as int;
        let n = self.entries.len();
        let mut i: usize = 0;
        while i < n
            invariant
                0 <= i <= n,
                n == self.entries@.len(),
                now == now_millis as int,
                th == threshold_millis as int,
                forall|j: int| 0 <= j < i ==> !spec_fresh_entry(self.entries@[j], now, th),
            decreases n - i,
        {
            if is_fresh(self.entries[i].data.timestamp_millis, now_millis, threshold_millis) {
                proof {
                    assert(spec_fresh_entry(self.entries@[i as int], now, th));
                }
                return true;
            }
            i += 1;
        }
        false
    }

    /// How many entries the store holds.
    pub fn len(&self) -> (r: usize)
        ensures
            r == self@.len(),
    {
        self.entries.len()
    }
}

} // verus!
