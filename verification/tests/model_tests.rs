use rate_relay::config::{
    default_enabled, default_interval_ms, default_port, default_priority,
    default_staleness_threshold_secs, FeedConfig, ServerConfig,
};
use rate_relay::error::FeedError;
use rate_relay::freshness::is_fresh;
use rate_relay::models::{
    canonical_pair, health_response, no_data_response, PriceData, PriceResponse,
};
use rate_relay::price::Price;

#[test]
fn freshness_is_strict() {
    let now = 1_000_000;
    let t = 30_000;
    assert!(!is_fresh(now - t, now, t));
    assert!(is_fresh(now - t + 1, now, t));
    assert!(is_fresh(now, now, t));
    assert!(!is_fresh(now - t - 1, now, t));
}

#[test]
fn config_defaults() {
    assert_eq!(default_port(), 8080);
    assert_eq!(default_staleness_threshold_secs(), 30);
    assert_eq!(default_interval_ms(), 1500);
    assert_eq!(default_priority(), 100);
    assert!(default_enabled());
    let server = ServerConfig::default();
    assert_eq!(server.port, 8080);
    assert_eq!(server.staleness_threshold_secs, 30);
}

#[test]
fn feed_config_pair() {
    let config = FeedConfig {
        feed_type: "mock".to_string(),
        base_token: "SOL".to_string(),
        quote_token: "USDC".to_string(),
        interval_ms: 1500,
        priority: 1,
        enabled: true,
    };
    assert_eq!(config.pair(), "SOL/USDC");
}

#[test]
fn canonical_pair_uppercases() {
    assert_eq!(canonical_pair("sol", "usdc"), "SOL/USDC");
    assert_eq!(canonical_pair("Btc", "uSdT"), "BTC/USDT");
}

#[test]
fn format_decimal_renders_exactly() {
    assert_eq!(Price { mantissa: 1800, scale: 1 }.to_decimal_string(), "180.0");
    assert_eq!(Price { mantissa: 995_000, scale: 6 }.to_decimal_string(), "0.995000");
    assert_eq!(Price { mantissa: 42, scale: 0 }.to_decimal_string(), "42");
    assert_eq!(Price { mantissa: -5, scale: 2 }.to_decimal_string(), "-0.05");
    assert_eq!(Price { mantissa: 0, scale: 0 }.to_decimal_string(), "0");
    assert_eq!(Price { mantissa: 0, scale: 2 }.to_decimal_string(), "0.00");
    assert_eq!(Price { mantissa: -10_500, scale: 3 }.to_decimal_string(), "-10.500");
    // The largest representable mantissa at the largest scale.
    assert_eq!(
        Price { mantissa: 79_228_162_514_264_337_593_543_950_335, scale: 28 }.to_decimal_string(),
        "7.9228162514264337593543950335"
    );
}

#[test]
fn price_checks() {
    assert!(Price { mantissa: 1, scale: 0 }.is_positive());
    assert!(!Price { mantissa: 0, scale: 0 }.is_positive());
    assert!(!Price { mantissa: -1, scale: 0 }.is_positive());
    assert!(Price { mantissa: 1800, scale: 1 }.is_well_formed());
    assert!(!Price { mantissa: 1800, scale: 29 }.is_well_formed());
}

#[test]
fn price_response_renders_exact_decimal() {
    let data = PriceData {
        pair: "SOL/USDC".to_string(),
        price: Price { mantissa: 17_910_000, scale: 5 },
        source: "mock".to_string(),
        timestamp_millis: 123,
    };
    let r = PriceResponse::from_price_data(&data, true);
    assert_eq!(r.pair, "SOL/USDC");
    assert_eq!(r.price, "179.10000");
    assert_eq!(r.source, "mock");
    assert!(r.fallback_used);
    assert_eq!(r.timestamp_millis, 123);
}

#[test]
fn health_responses() {
    let ok = health_response(true, 5);
    assert_eq!(ok.status, "healthy");
    assert_eq!(ok.timestamp_millis, 5);
    assert!(ok.reason.is_none());
    let bad = health_response(false, 6);
    assert_eq!(bad.status, "unhealthy");
    assert_eq!(bad.reason.as_deref(), Some("No fresh price data available"));
}

#[test]
fn no_data_message() {
    assert_eq!(
        no_data_response("SOL/USDC").error,
        "No price data available for SOL/USDC"
    );
}

#[test]
fn error_kind_labels() {
    assert_eq!(FeedError::HttpError(String::new()).kind_label(), "http");
    assert_eq!(FeedError::ParseError(String::new()).kind_label(), "parse");
    assert_eq!(FeedError::InvalidData(String::new()).kind_label(), "invalid_data");
    assert_eq!(
        FeedError::NotImplemented(String::new()).kind_label(),
        "not_implemented"
    );
    assert_eq!(
        FeedError::HttpError("boom".to_string()).message(),
        "boom"
    );
}
