//! The Jupiter source. The network call itself is a collaborator's job: this
//! module builds the request URL for a configured pair and turns the price
//! text extracted from a response into a validated observation.

use vstd::prelude::*;

use crate::config::FeedConfig;
use crate::error::FeedError;
use crate::models::PriceData;
use crate::price::parse_decimal;
use crate::price::spec_parse_decimal;
use crate::price::Price;
use crate::strutil::str_eq;
use crate::strutil::to_upper;
use crate::strutil::upper_of;

verus! {

/// The mint address a token symbol stands for: the well-known Solana mints for
/// SOL, USDC and USDT; any other (uppercased) symbol is taken to be a mint
/// address already.
pub open spec fn spec_token_to_mint(up: Seq<char>) -> Seq<char> {
    if up == "SOL"@ {
        "So11111111111111111111111111111111111111112"@
    } else if up == "USDC"@ {
        "EPjFWdd5AufqSSqeM2qN1xzybapC8G4wEGGkZwyTDt1v"@
    } else if up == "USDT"@ {
        "Es9vMFrzaCERmJfrF4H2FYD4KCoNkY11McCe8BenwNYB"@
    } else {
        up
    }
}

/// Resolve a token symbol to its mint address, case-insensitively.
pub fn token_to_mint(token: &str) -> (r: String)
    ensures
        r@ == spec_token_to_mint(upper_of(token@)),
{
    let up = to_upper(token);
    if str_eq(up.as_str(), "SOL") {
        String::from_str("So11111111111111111111111111111111111111112")
    } else if str_eq(up.as_str(), "USDC") {
        String::from_str("EPjFWdd5AufqSSqeM2qN1xzybapC8G4wEGGkZwyTDt1v")
    } else if str_eq(up.as_str(), "USDT") {
        String::from_str("Es9vMFrzaCERmJfrF4H2FYD4KCoNkY11McCe8BenwNYB")
    } else {
        up
    }
}

/// The Jupiter source, bound to one pair.
#[derive(Debug, Clone)]
pub struct JupiterFeed {
    pub pair: String,
    pub base_mint: String,
    pub quote_mint: String,
    pub priority: u32,
    pub api_key: Option<String>,
}

impl JupiterFeed {
    /// Build the source for a configuration; the API key, when one is set in
    /// the environment, is handed in by the caller.
    pub fn new(config: &FeedConfig, api_key: Option<String>) -> (r: Self)
        ensures
            r.pair@ == config.base_token@ + "/"@ + config.quote_token@,
            r.base_mint@ == spec_token_to_mint(upper_of(config.base_token@)),
            r.quote_mint@ == spec_token_to_mint(upper_of(config.quote_token@)),
            r.priority == config.priority,
            r.api_key == api_key,
    {
        JupiterFeed {
            pair: config.pair(),
            base_mint: token_to_mint(config.base_token.as_str()),
            quote_mint: token_to_mint(config.quote_token.as_str()),
            priority: config.priority,
            api_key,
        }
    }

    /// The URL the transport layer must query for this pair.
    pub fn request_url(&self) -> (r: String)
        ensures
            r@ == "https://api.jup.ag/price/v2?ids="@ + self.base_mint@ + "&vsToken="@
                + self.quote_mint@,
    {
        let mut s = String::from_str("https://api.jup.ag/price/v2?ids=");
        s.append(self.base_mint.as_str());
        s.append("&vsToken=");
        s.append(self.quote_mint.as_str());
        s
    }

    /// Turn the price text found in a response into an observation.
    /// `price_text` is the price string the response carried for the base
    /// mint, or nothing when the response did not mention it. The result is an
    /// observation exactly when the text parses as a positive decimal;
    /// otherwise the matching error of the taxonomy.
    pub fn complete_fetch(&self, price_text: Option<&str>, now_millis: i64) -> (r: Result<
        PriceData,
        FeedError,
    >)
        ensures
            price_text is None ==> (r matches Err(e) && e matches FeedError::ParseError(m) && m@
                == "Token not found in response"@),
            price_text matches Some(s) ==> (spec_parse_decimal(s@) is None ==> (r matches Err(e)
                && e matches FeedError::ParseError(m) && (exists|rest: Seq<char>|
                m@ == #[trigger] ("Invalid price format: "@ + rest)))),
            price_text matches Some(s) ==> (spec_parse_decimal(s@) matches Some((mantissa, scale))
                ==> {
                &&& mantissa <= 0 ==> (r matches Err(e) && e matches FeedError::InvalidData(m)
                    && m@ == "Price must be positive"@)
                &&& mantissa > 0 ==> (r matches Ok(d) && {
                    &&& d.pair == self.pair
                    &&& d.price == (Price { mantissa, scale })
                    &&& d.source@ == "jupiter"@
                    &&& d.timestamp_millis == now_millis
                    &&& d.wf()
                })
            }),
    {
        match price_text {
            None => Err(FeedError::ParseError(String::from_str("Token not found in response"))),
            Some(text) => match parse_decimal(text) {
                Err(msg) => {
                    let mut m = String::from_str("Invalid price format: ");
                    m.append(msg.as_str());
                    Err(FeedError::ParseError(m))
                },
                Ok(p) => {
                    if p.is_positive() {
                        Ok(
                            PriceData {
                                pair: self.pair.clone(),
                                price: p,
                                source: String::from_str("jupiter"),
                                timestamp_millis: now_millis,
                            },
                        )
                    } else {
                        Err(FeedError::InvalidData(String::from_str("Price must be positive")))
                    }
                },
            },
        }
    }
}

} // verus!
