//! The observation record a source produces and the response shapes the query
//! layer serves. Timestamps are milliseconds since the Unix epoch; prices stay
//! exact decimals end to end.

use vstd::prelude::*;

use crate::price::Price;
use crate::price::spec_decimal_str;
use crate::strutil::to_upper;
use crate::strutil::upper_of;

verus! {

/// One observation: a quote for `pair` produced by `source`.
#[derive(Debug, Clone)]
pub struct PriceData {
    pub pair: String,
    pub price: Price,
    pub source: String,
    pub timestamp_millis: i64,
}

impl PriceData {
    /// An observation is valid when its price is representable.
    pub open spec fn wf(self) -> bool {
        self.price.wf()
    }

    /// A copy that provably equals the original.
    pub fn duplicate(&self) -> (r: PriceData)
        ensures
            r == *self,
    {
        PriceData {
            pair: self.pair.clone(),
            price: self.price,
            source: self.source.clone(),
            timestamp_millis: self.timestamp_millis,
        }
    }
}

/// The answer served for a price query.
#[derive(Debug, Clone)]
pub struct PriceResponse {
    pub pair: String,
    pub price: String,
    pub source: String,
    pub fallback_used: bool,
    pub timestamp_millis: i64,
}

impl PriceResponse {
    /// Render an observation for the query layer. The price crosses the
    /// boundary as an exact decimal string.
    pub fn from_price_data(data: &PriceData, fallback_used: bool) -> (r: Self)
        requires
            data.wf(),
        ensures
            r.pair == data.pair,
            r.price@ == spec_decimal_str(data.price.mantissa as int, data.price.scale as int),
            r.source == data.source,
            r.fallback_used == fallback_used,
            r.timestamp_millis == data.timestamp_millis,
    {
        PriceResponse {
            pair: data.pair.clone(),
            price: data.price.to_decimal_string(),
            source: data.source.clone(),
            fallback_used,
            timestamp_millis: data.timestamp_millis,
        }
    }
}

/// The answer served for a liveness query.
#[derive(Debug, Clone)]
pub struct HealthResponse {
    pub status: String,
    pub timestamp_millis: i64,
    pub reason: Option<String>,
}

/// Build the liveness answer: healthy exactly when some fresh data exists.
pub fn health_response(has_data: bool, now_millis: i64) -> (r: HealthResponse)
    ensures
        has_data ==> r.status@ == "healthy"@ && r.reason is None,
        !has_data ==> r.status@ == "unhealthy"@ && (r.reason matches Some(m)
            && m@ == "No fresh price data available"@),
        r.timestamp_millis == now_millis,
{
    if has_data {
        HealthResponse {
            status: String::from_str("healthy"),
            timestamp_millis: now_millis,
            reason: None,
        }
    } else {
        HealthResponse {
            status: String::from_str("unhealthy"),
            timestamp_millis: now_millis,
            reason: Some(String::from_str("No fresh price data available")),
        }
    }
}

/// The answer served when a query cannot be satisfied.
#[derive(Debug, Clone)]
pub struct ErrorResponse {
    pub error: String,
}

/// Build the answer for a pair that has no fresh data.
pub fn no_data_response(pair: &str) -> (r: ErrorResponse)
    ensures
        r.error@ == "No price data available for "@ + pair@,
{
    let mut s = String::from_str("No price data available for ");
    s.append(pair);
    ErrorResponse { error: s }
}

/// The canonical form of a pair queried as two tokens: both uppercased and
/// joined with a slash.
pub fn canonical_pair(base: &str, quote: &str) -> (r: String)
    ensures
        r@ == upper_of(base@) + "/"@ + upper_of(quote@),
{
    let mut s = to_upper(base);
    s.append("/");
    let q = to_upper(quote);
    s.append(q.as_str());
    s
}

} // verus!
