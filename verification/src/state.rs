//! The shared application state: the price store behind a single
//! reader-writer lock, the staleness threshold, and the per-pair minimum
//! configured priority, computed once at startup. Any number of schedulers and
//! query handlers may call the operations concurrently; the lock serializes
//! writers against readers and other writers, and its invariant keeps every
//! stored table well-formed.

use vstd::prelude::*;
use vstd::rwlock::RwLock;
use vstd::rwlock::RwLockPredicate;

use crate::error::FeedError;
use crate::freshness::now_millis;
use crate::models::PriceData;
use crate::scheduler::apply_fetch;
use crate::scheduler::FetchEvent;
use crate::store::PriceEntry;
use crate::store::PriceStore;
use crate::store::spec_better;
use crate::store::spec_candidate;
use crate::store::spec_find;
use crate::strutil::str_eq;

verus! {

/// One configured registration: a source's pair and its priority.
#[derive(Debug, Clone)]
pub struct PairPriority {
    pub pair: String,
    pub priority: u32,
}

/// The minimum priority configured among the registrations for `pair`, or
/// nothing when no source is registered for it.
pub open spec fn spec_min_priority(regs: Seq<PairPriority>, pair: Seq<char>) -> Option<u32>
    decreases regs.len(),
{
    if regs.len() == 0 {
        None
    } else {
        let prev = spec_min_priority(regs.drop_last(), pair);
        if regs.last().pair@ == pair {
            match prev {
                None => Some(regs.last().priority),
                Some(m) => Some(
                    if regs.last().priority < m {
                        regs.last().priority
                    } else {
                        m
                    },
                ),
            }
        } else {
            prev
        }
    }
}

/// First-match lookup in a list of per-pair minimums.
pub open spec fn spec_lookup_min(mins: Seq<PairPriority>, pair: Seq<char>) -> Option<u32>
    decreases mins.len(),
{
    if mins.len() == 0 {
        None
    } else if mins[0].pair@ == pair {
        Some(mins[0].priority)
    } else {
        spec_lookup_min(mins.drop_first(), pair)
    }
}

/// A pair has a configured minimum exactly when some registration names it.
proof fn lemma_min_priority_some(regs: Seq<PairPriority>, pair: Seq<char>)
    ensures
        (spec_min_priority(regs, pair) is Some) <==> (exists|j: int|
            0 <= j < regs.len() && regs[j].pair@ == pair),
    decreases regs.len(),
{
    if regs.len() > 0 {
        lemma_min_priority_some(regs.drop_last(), pair);
        if regs.last().pair@ == pair {
            assert(regs[regs.len() - 1].pair@ == pair);
        } else {
            assert forall|j: int| 0 <= j < regs.len() && regs[j].pair@ == pair implies
                spec_min_priority(regs, pair) is Some by {
                assert(j < regs.len() - 1);
                assert(regs.drop_last()[j] == regs[j]);
            }
            if exists|j: int| 0 <= j < regs.drop_last().len() && regs.drop_last()[j].pair@
                == pair {
                let j = choose|j: int|
                    0 <= j < regs.drop_last().len() && regs.drop_last()[j].pair@ == pair;
                assert(regs[j].pair@ == pair);
            }
        }
    }
}

/// Appending to a minimums list only fills in pairs that had no entry yet.
proof fn lemma_lookup_push(mins: Seq<PairPriority>, x: PairPriority, pair: Seq<char>)
    ensures
        spec_lookup_min(mins.push(x), pair) == (match spec_lookup_min(mins, pair) {
            Some(m) => Some(m),
            None => if x.pair@ == pair {
                Some(x.priority)
            } else {
                None
            },
        }),
    decreases mins.len(),
{
    if mins.len() == 0 {
        assert(mins.push(x)[0] == x);
        assert(mins.push(x).drop_first() =~= mins);
    } else {
        assert(mins.push(x)[0] == mins[0]);
        assert(mins.push(x).drop_first() =~= mins.drop_first().push(x));
        lemma_lookup_push(mins.drop_first(), x, pair);
    }
}

/// The minimum priority configured among the registrations for `pair`,
/// scanning the whole registration list.
pub fn min_priority_for(regs: &Vec<PairPriority>, pair: &str) -> (r: Option<u32>)
    ensures
        r == spec_min_priority(regs@, pair@),
{
    let n = regs.len();
    let mut acc: Option<u32> = None;
    let mut i: usize = 0;
    while i < n
        invariant
            0 <= i <= n,
            n == regs@.len(),
            acc == spec_min_priority(regs@.take(i as int), pair@),
        decreases n - i,
    {
        proof {
            assert(regs@.take(i + 1).drop_last() =~= regs@.take(i as int));
            assert(regs@.take(i + 1).last() == regs@[i as int]);
        }
        if str_eq(regs[i].pair.as_str(), pair) {
            acc = match acc {
                None => Some(regs[i].priority),
                Some(m) => Some(if regs[i].priority < m { regs[i].priority } else { m }),
            };
        }
        i += 1;
    }
    proof {
        assert(regs@.take(n as int) =~= regs@);
    }
    acc
}

/// First-match lookup of a pair's recorded minimum.
pub fn lookup_min(mins: &Vec<PairPriority>, pair: &str) -> (r: Option<u32>)
    ensures
        r == spec_lookup_min(mins@, pair@),
{
    let n = mins.len();
    let mut i: usize = 0;
    proof {
        assert(mins@.skip(0) =~= mins@);
    }
    while i < n
        invariant
            0 <= i <= n,
            n == mins@.len(),
            spec_lookup_min(mins@, pair@) == spec_lookup_min(mins@.skip(i as int), pair@),
        decreases n - i,
    {
        proof {
            assert(mins@.skip(i as int)[0] == mins@[i as int]);
            assert(mins@.skip(i as int).drop_first() =~= mins@.skip(i + 1));
        }
        if str_eq(mins[i].pair.as_str(), pair) {
            return Some(mins[i].priority);
        }
        i += 1;
    }
    proof {
        assert(mins@.skip(n as int).len() == 0);
    }
    None
}

/// Compute, once, the minimum configured priority of every registered pair.
/// Looking a pair up in the result gives exactly its minimum over the
/// registrations, and nothing for unregistered pairs.
pub fn compute_pair_minimums(regs: &Vec<PairPriority>) -> (r: Vec<PairPriority>)
    ensures
        forall|p: Seq<char>| spec_lookup_min(r@, p) == spec_min_priority(regs@, p),
{
    let n = regs.len();
    let mut mins: Vec<PairPriority> = Vec::new();
    let mut i: usize = 0;
    proof {
        assert(mins@ =~= Seq::<PairPriority>::empty());
    }
    while i < n
        invariant
            0 <= i <= n,
            n == regs@.len(),
            forall|p: Seq<char>|
                (exists|j: int| 0 <= j < i && regs@[j].pair@ == p) ==> spec_lookup_min(mins@, p)
                    == spec_min_priority(regs@, p),
            forall|p: Seq<char>|
                !(exists|j: int| 0 <= j < i && regs@[j].pair@ == p) ==> spec_lookup_min(mins@, p)
                    is None,
        decreases n - i,
    {
        let seen = lookup_min(&mins, regs[i].pair.as_str());
        if seen.is_none() {
            let m = min_priority_for(regs, regs[i].pair.as_str());
            match m {
                Some(mp) => {
                    let entry = PairPriority { pair: regs[i].pair.clone(), priority: mp };
                    proof {
                        let ghost old_mins = mins@;
                        assert forall|p: Seq<char>| true implies spec_lookup_min(
                            old_mins.push(entry),
                            p,
                        ) == (match spec_lookup_min(old_mins, p) {
                            Some(q) => Some(q),
                            None => if entry.pair@ == p {
                                Some(entry.priority)
                            } else {
                                None
                            },
                        }) by {
                            lemma_lookup_push(old_mins, entry, p);
                        }
                    }
                    mins.push(entry);
                },
                None => {
                    proof {
                        lemma_min_priority_some(regs@, regs@[i as int].pair@);
                        assert(regs@[i as int].pair@ == regs@[i as int].pair@);
                        assert(false);
                    }
                },
            }
        }
        proof {
            assert forall|p: Seq<char>| (exists|j: int| 0 <= j < i + 1 && regs@[j].pair@ == p)
                implies spec_lookup_min(mins@, p) == spec_min_priority(regs@, p) by {
                if !(exists|j: int| 0 <= j < i && regs@[j].pair@ == p) {
                    assert(regs@[i as int].pair@ == p);
                }
            }
        }
        i += 1;
    }
    proof {
        assert forall|p: Seq<char>| spec_lookup_min(mins@, p) == spec_min_priority(regs@, p) by {
            lemma_min_priority_some(regs@, p);
        }
    }
    mins
}

/// The lock invariant: every table the lock stores is well-formed.
pub struct StoreInvariant {}

impl RwLockPredicate<PriceStore> for StoreInvariant {
    open spec fn inv(self, v: PriceStore) -> bool {
        v.wf()
    }
}

/// Decide the fallback flag: the selection used a fallback exactly when the
/// selected priority is not the pair's minimum configured priority (in
/// particular, whenever the pair has no registration at all).
pub fn fallback_flag(minimums: &Vec<PairPriority>, pair: &str, selected_priority: u32) -> (r: bool)
    ensures
        r == (spec_lookup_min(minimums@, pair@) != Some(selected_priority)),
{
    match lookup_min(minimums, pair) {
        Some(m) => m != selected_priority,
        None => true,
    }
}

/// Select the best fresh observation for `pair` from one table snapshot and
/// decide the fallback flag against the recorded per-pair minimums.
pub fn best_with_fallback(
    store: &PriceStore,
    minimums: &Vec<PairPriority>,
    pair: &str,
    now_millis: i64,
    threshold_millis: i64,
) -> (r: Option<(PriceData, bool)>)
    requires
        store.wf(),
    ensures
        r is None <==> (forall|j: int|
            0 <= j < store@.len() ==> !spec_candidate(
                store@[j],
                pair@,
                now_millis as int,
                threshold_millis as int,
            )),
        r matches Some((d, fb)) ==> {
            &&& spec_find(store@, pair@, d.source@) matches Some(e) && e.data == d
                && spec_candidate(e, pair@, now_millis as int, threshold_millis as int) && (
            forall|j: int|
                0 <= j < store@.len() && spec_candidate(
                    store@[j],
                    pair@,
                    now_millis as int,
                    threshold_millis as int,
                ) ==> !spec_better(
                    store@[j].priority,
                    store@[j].data.source@,
                    e.priority,
                    d.source@,
                )) && fb == (spec_lookup_min(minimums@, pair@) != Some(e.priority))
            &&& d.wf()
        },
{
    match store.get_best(pair, now_millis, threshold_millis) {
        None => None,
        Some((d, prio)) => {
            let fb = fallback_flag(minimums, pair, prio);
            Some((d, fb))
        },
    }
}

/// The shared state: one table behind one reader-writer lock, with the
/// freshness threshold and the startup-computed per-pair minimums beside it.
/// All concurrent access goes through these operations; the lock invariant
/// keeps every table it guards well-formed, so each snapshot a reader sees
/// satisfies the contracts of the store's operations.
pub struct AppState {
    inner: RwLock<PriceStore, StoreInvariant>,
    staleness_threshold_millis: i64,
    pair_minimums: Vec<PairPriority>,
}

impl AppState {
    /// The staleness threshold, in milliseconds.
    pub closed spec fn spec_threshold_millis(&self) -> int {
        self.staleness_threshold_millis as int
    }

    /// The per-pair minimums recorded at startup.
    pub closed spec fn spec_minimums(&self) -> Seq<PairPriority> {
        self.pair_minimums@
    }

    /// Build the shared state from the configured threshold and the (pair,
    /// priority) registrations of the enabled sources. The per-pair minimum
    /// priorities are computed here, once.
    pub fn new(staleness_threshold_secs: u64, registrations: Vec<PairPriority>) -> (r: Self)
        requires
            staleness_threshold_secs * 1000 <= i64::MAX,
        ensures
            r.spec_threshold_millis() == staleness_threshold_secs * 1000,
            forall|p: Seq<char>|
                spec_lookup_min(r.spec_minimums(), p) == spec_min_priority(registrations@, p),
    {
        let minimums = compute_pair_minimums(&registrations);
        let store = PriceStore::new();
        AppState {
            inner: RwLock::new(store, Ghost(StoreInvariant {})),
            staleness_threshold_millis: (staleness_threshold_secs * 1000) as i64,
            pair_minimums: minimums,
        }
    }

    /// The staleness threshold in milliseconds, as configured.
    pub fn threshold_millis(&self) -> (r: i64)
        ensures
            r == self.spec_threshold_millis(),
    {
        self.staleness_threshold_millis
    }

    /// Store an observation from a source: an unconditional upsert under the
    /// observation's (pair, source) key, serialized by the write lock. See
    /// `PriceStore::update` for what the upsert does to the guarded table.
    pub fn update_price(&self, data: PriceData, priority: u32)
        requires
            data.wf(),
    {
        let (mut store, handle) = self.inner.acquire_write();
        store.update(data, priority);
        handle.release_write(store);
    }

    /// Answer a price query from the current table snapshot: the best fresh
    /// observation for the pair and the fallback flag, or nothing when no
    /// entry for the pair is fresh. See `best_with_fallback` for the selection
    /// contract that each snapshot satisfies.
    pub fn get_price(&self, pair: &str) -> (r: Option<(PriceData, bool)>)
        ensures
            r matches Some((d, fb)) ==> d.pair@ == pair@ && d.wf(),
    {
        let now = now_millis();
        let handle = self.inner.acquire_read();
        let r = best_with_fallback(
            handle.borrow(),
            &self.pair_minimums,
            pair,
            now,
            self.staleness_threshold_millis,
        );
        handle.release_read();
        r
    }

    /// Hand one fetch outcome to the shared state, as a scheduler does each
    /// tick: a success is stored under the observation's key, a failure only
    /// becomes an event and never touches the store (see `apply_fetch`).
    pub fn on_fetch_result(
        &self,
        source: String,
        pair: String,
        result: Result<PriceData, FeedError>,
        priority: u32,
    ) -> (ev: FetchEvent)
        requires
            result matches Ok(d) ==> d.wf(),
        ensures
            result matches Ok(d) ==> ev == (FetchEvent::Success {
                source,
                pair,
                price: d.price,
            }),
            result matches Err(e) ==> ev == (FetchEvent::Failure {
                source,
                pair,
                error: e,
            }),
    {
        match result {
            Ok(_) => {
                let (mut store, handle) = self.inner.acquire_write();
                let ev = apply_fetch(&mut store, source, pair, result, priority);
                handle.release_write(store);
                ev
            },
            Err(e) => FetchEvent::Failure { source, pair, error: e },
        }
    }

    /// Whether any entry anywhere in the store is fresh right now; the
    /// process-level liveness signal.
    pub fn has_fresh_data(&self) -> bool {
        let now = now_millis();
        let handle = self.inner.acquire_read();
        let r = handle.borrow().has_fresh(now, self.staleness_threshold_millis);
        handle.release_read();
        r
    }
}

} // verus!
