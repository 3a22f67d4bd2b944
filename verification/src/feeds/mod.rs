//! The pluggable source capability: one variant per source type, selected by a
//! symbolic type string. Each source knows its stable name, its bound pair and
//! its configured priority; adding a source means adding a variant.

mod binance;
mod jupiter;
mod mock;
mod pyth;

pub use binance::BinanceFeed;
pub use jupiter::JupiterFeed;
pub use jupiter::spec_token_to_mint;
pub use jupiter::token_to_mint;
pub use mock::MockFeed;
pub use mock::spec_mock_base;
pub use mock::spec_mock_multiplier;
pub use pyth::PythFeed;

use vstd::prelude::*;

use crate::config::FeedConfig;
use crate::error::FeedError;
use crate::strutil::str_eq;

verus! {

/// A configured price source.
#[derive(Debug, Clone)]
pub enum Feed {
    Jupiter(JupiterFeed),
    Pyth(PythFeed),
    Binance(BinanceFeed),
    Mock(MockFeed),
}

impl Feed {
    /// The source's stable identifier.
    pub open spec fn spec_name(&self) -> Seq<char> {
        match *self {
            Feed::Jupiter(_) => "jupiter"@,
            Feed::Pyth(_) => "pyth"@,
            Feed::Binance(_) => "binance"@,
            Feed::Mock(_) => "mock"@,
        }
    }

    /// The pair the source is bound to.
    pub open spec fn spec_pair(&self) -> Seq<char> {
        match *self {
            Feed::Jupiter(f) => f.pair@,
            Feed::Pyth(f) => f.pair@,
            Feed::Binance(f) => f.pair@,
            Feed::Mock(f) => f.pair@,
        }
    }

    /// The source's configured priority.
    pub open spec fn spec_priority(&self) -> u32 {
        match *self {
            Feed::Jupiter(f) => f.priority,
            Feed::Pyth(f) => f.priority,
            Feed::Binance(f) => f.priority,
            Feed::Mock(f) => f.priority,
        }
    }

    /// The source's stable identifier.
    pub fn name(&self) -> (r: &'static str)
        ensures
            r@ == self.spec_name(),
    {
        match self {
            Feed::Jupiter(_) => "jupiter",
            Feed::Pyth(_) => "pyth",
            Feed::Binance(_) => "binance",
            Feed::Mock(_) => "mock",
        }
    }

    /// The pair the source is bound to.
    pub fn pair(&self) -> (r: &str)
        ensures
            r@ == self.spec_pair(),
    {
        match self {
            Feed::Jupiter(f) => f.pair.as_str(),
            Feed::Pyth(f) => f.pair.as_str(),
            Feed::Binance(f) => f.pair.as_str(),
            Feed::Mock(f) => f.pair.as_str(),
        }
    }

    /// The source's configured priority.
    pub fn priority(&self) -> (r: u32)
        ensures
            r == self.spec_priority(),
    {
        match self {
            Feed::Jupiter(f) => f.priority,
            Feed::Pyth(f) => f.priority,
            Feed::Binance(f) => f.priority,
            Feed::Mock(f) => f.priority,
        }
    }
}

/// Select and build a source from its configuration, keyed on the symbolic
/// type string. An unrecognized type is a configuration-time error: the source
/// is reported as unsupported, never constructed.
pub fn create_feed(config: &FeedConfig, api_key: Option<String>) -> (r: Result<Feed, FeedError>)
    ensures
        config.feed_type@ == "jupiter"@ ==> (r matches Ok(f) && f is Jupiter),
        config.feed_type@ == "pyth"@ ==> (r matches Ok(f) && f is Pyth),
        config.feed_type@ == "binance"@ ==> (r matches Ok(f) && f is Binance),
        config.feed_type@ == "mock"@ ==> (r matches Ok(f) && f is Mock),
        r matches Ok(f) ==> f.spec_pair() == config.base_token@ + "/"@ + config.quote_token@
            && f.spec_priority() == config.priority,
        !(config.feed_type@ == "jupiter"@ || config.feed_type@ == "pyth"@ || config.feed_type@
            == "binance"@ || config.feed_type@ == "mock"@) ==> (r matches Err(e) && e matches
            FeedError::NotImplemented(m) && m@ == "Unknown feed type: "@ + config.feed_type@),
{
    proof {
        reveal_strlit("jupiter");
        reveal_strlit("pyth");
        reveal_strlit("binance");
        reveal_strlit("mock");
        assert("jupiter"@.len() == 7);
        assert("pyth"@.len() == 4);
        assert("binance"@.len() == 7);
        assert("mock"@.len() == 4);
        assert("jupiter"@[0] == 'j' && "binance"@[0] == 'b');
        assert("pyth"@[0] == 'p' && "mock"@[0] == 'm');
    }
    if str_eq(config.feed_type.as_str(), "jupiter") {
        Ok(Feed::Jupiter(JupiterFeed::new(config, api_key)))
    } else if str_eq(config.feed_type.as_str(), "pyth") {
        Ok(Feed::Pyth(PythFeed::new(config)))
    } else if str_eq(config.feed_type.as_str(), "binance") {
        Ok(Feed::Binance(BinanceFeed::new(config)))
    } else if str_eq(config.feed_type.as_str(), "mock") {
        Ok(Feed::Mock(MockFeed::new(config)))
    } else {
        let mut m = String::from_str("Unknown feed type: ");
        m.append(config.feed_type.as_str());
        Err(FeedError::NotImplemented(m))
    }
}

} // verus!
