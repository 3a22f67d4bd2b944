//! A placeholder source: the capability is intentionally not implemented, so
//! every fetch reports `NotImplemented` and the store is never touched.

use vstd::prelude::*;

use crate::config::FeedConfig;
use crate::error::FeedError;
use crate::models::PriceData;

verus! {

/// The (unimplemented) source.
#[derive(Debug, Clone)]
pub struct PythFeed {
    pub pair: String,
    pub priority: u32,
}

impl PythFeed {
    /// Build the source for a configuration.
    pub fn new(config: &FeedConfig) -> (r: Self)
        ensures
            r.pair@ == config.base_token@ + "/"@ + config.quote_token@,
            r.priority == config.priority,
    {
        PythFeed { pair: config.pair(), priority: config.priority }
    }

    /// Always reports that the capability is not implemented.
    pub fn fetch_price(&self) -> (r: Result<PriceData, FeedError>)
        ensures
            r matches Err(e) && e matches FeedError::NotImplemented(m) && m@
                == "Pyth feed not yet implemented"@,
    {
        Err(FeedError::NotImplemented(String::from_str("Pyth feed not yet implemented")))
    }
}

} // verus!
