//! A simulated source: it produces an oscillating price around a fixed base,
//! driven by a call counter, and never fails. Useful for exercising the store
//! and scheduler without a network.

use vstd::prelude::*;

use crate::config::FeedConfig;
use crate::error::FeedError;
use crate::models::PriceData;
use crate::price::Price;
use crate::strutil::str_eq;

verus! {

/// The base price simulated for a pair: a handful of well-known pairs get a
/// realistic level, everything else a round hundred.
pub open spec fn spec_mock_base(base: Seq<char>, quote: Seq<char>) -> Price {
    if base == "SOL"@ && (quote == "USDC"@ || quote == "USDT"@) {
        Price { mantissa: 1800, scale: 1 }
    } else if base == "BTC"@ && (quote == "USDC"@ || quote == "USDT"@) {
        Price { mantissa: 950000, scale: 1 }
    } else if base == "ETH"@ && (quote == "USDC"@ || quote == "USDT"@) {
        Price { mantissa: 32000, scale: 1 }
    } else {
        Price { mantissa: 1000, scale: 1 }
    }
}

/// The oscillation applied on the `counter`-th call: a multiplier between
/// 0.9950 and 1.0049 (in units of 10^-4), swinging about half a percent
/// around the base.
pub open spec fn spec_mock_multiplier(counter: u64) -> int {
    9950 + counter as int % 100
}

/// The simulated source.
#[derive(Debug, Clone)]
pub struct MockFeed {
    pub pair: String,
    pub priority: u32,
    pub base_price: Price,
    pub counter: u64,
}

impl MockFeed {
    /// The bounds under which every generated price is representable.
    pub open spec fn wf(&self) -> bool {
        &&& 0 < self.base_price.mantissa <= 1000000
        &&& self.base_price.scale <= 24
    }

    /// Build the simulated source for a configuration.
    pub fn new(config: &FeedConfig) -> (r: Self)
        ensures
            r.pair@ == config.base_token@ + "/"@ + config.quote_token@,
            r.priority == config.priority,
            r.base_price == spec_mock_base(config.base_token@, config.quote_token@),
            r.counter == 0,
            r.wf(),
    {
        let usd_quote = str_eq(config.quote_token.as_str(), "USDC") || str_eq(
            config.quote_token.as_str(),
            "USDT",
        );
        let base_price = if usd_quote && str_eq(config.base_token.as_str(), "SOL") {
            Price { mantissa: 1800, scale: 1 }
        } else if usd_quote && str_eq(config.base_token.as_str(), "BTC") {
            Price { mantissa: 950000, scale: 1 }
        } else if usd_quote && str_eq(config.base_token.as_str(), "ETH") {
            Price { mantissa: 32000, scale: 1 }
        } else {
            Price { mantissa: 1000, scale: 1 }
        };
        MockFeed { pair: config.pair(), priority: config.priority, base_price, counter: 0 }
    }

    /// Produce the next simulated observation: the base price times the
    /// counter's oscillation, stamped with the caller's clock. It never fails,
    /// and each call advances the counter.
    pub fn fetch_price(&mut self, now_millis: i64) -> (r: Result<PriceData, FeedError>)
        requires
            old(self).wf(),
        ensures
            final(self).wf(),
            final(self).pair == old(self).pair,
            final(self).priority == old(self).priority,
            final(self).base_price == old(self).base_price,
            old(self).counter < u64::MAX ==> final(self).counter == old(self).counter + 1,
            old(self).counter == u64::MAX ==> final(self).counter == 0,
            r matches Ok(d) && {
                &&& d.pair == old(self).pair
                &&& d.source@ == "mock"@
                &&& d.timestamp_millis == now_millis
                &&& d.price.mantissa == old(self).base_price.mantissa * spec_mock_multiplier(
                    old(self).counter,
                )
                &&& d.price.scale == old(self).base_price.scale + 4
                &&& d.wf()
            },
    {
        let count = self.counter;
        self.counter = if count == u64::MAX {
            0
        } else {
            count + 1
        };
        let bp = self.base_price;
        let m: u64 = 9950 + count % 100;
        proof {
            assert(bp.mantissa * (m as i128) <= 10049000000 && bp.mantissa * (m as i128)
                > 0) by (nonlinear_arith)
                requires
                    0 < bp.mantissa <= 1000000,
                    9950 <= m as i128 <= 10049,
            ;
        }
        let mantissa: i128 = bp.mantissa * (m as i128);
        let price = Price { mantissa, scale: bp.scale + 4 };
        Ok(
            PriceData {
                pair: self.pair.clone(),
                price,
                source: String::from_str("mock"),
                timestamp_millis: now_millis,
            },
        )
    }
}

} // verus!
