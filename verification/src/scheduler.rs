//! The per-source scheduler's decision core. The waiting and the actual fetch
//! happen outside; what is decided here, and proved, is what one tick does to
//! the store once the fetch outcome is known: a success upserts the
//! observation and reports a success event, a failure reports a failure event
//! and leaves the store exactly as it was.

use vstd::prelude::*;

use crate::error::FeedError;
use crate::feeds::Feed;
use crate::models::PriceData;
use crate::price::Price;
use crate::store::PriceEntry;
use crate::store::PriceStore;
use crate::store::spec_update;

verus! {

/// What one tick reports to the event recorder.
#[derive(Debug, Clone)]
pub enum FetchEvent {
    Success { source: String, pair: String, price: Price },
    Failure { source: String, pair: String, error: FeedError },
}

/// Apply one fetch outcome to the store. A success stores the observation
/// under its key with the scheduler's priority; a failure of any kind never
/// alters the store. Either way the outcome is turned into the event to
/// report, labelled with the scheduler's source name and pair.
pub fn apply_fetch(
    store: &mut PriceStore,
    source: String,
    pair: String,
    result: Result<PriceData, FeedError>,
    priority: u32,
) -> (ev: FetchEvent)
    requires
        old(store).wf(),
        result matches Ok(d) ==> d.wf(),
    ensures
        final(store).wf(),
        result matches Ok(d) ==> final(store)@ == spec_update(
            old(store)@,
            (PriceEntry { data: d, priority }),
        ) && ev == (FetchEvent::Success { source, pair, price: d.price }),
        result matches Err(e) ==> *final(store) == *old(store) && ev == (FetchEvent::Failure {
            source,
            pair,
            error: e,
        }),
{
    match result {
        Ok(d) => {
            let price = d.price;
            store.update(d, priority);
            FetchEvent::Success { source, pair, price }
        },
        Err(e) => FetchEvent::Failure { source, pair, error: e },
    }
}

/// One source's polling loop, bound to its configured interval. The loop
/// itself (wait for a tick, fetch, hand the outcome to the shared state) is
/// run by the embedding; the decision each tick makes is `apply_fetch`.
pub struct FeedScheduler {
    pub feed: Feed,
    pub interval_ms: u64,
}

impl FeedScheduler {
    /// Bind a source to its polling interval.
    pub fn new(feed: Feed, interval_ms: u64) -> (r: Self)
        ensures
            r.feed == feed,
            r.interval_ms == interval_ms,
    {
        FeedScheduler { feed, interval_ms }
    }
}

} // verus!
