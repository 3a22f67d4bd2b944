use rate_relay::error::FeedError;
use rate_relay::models::PriceData;
use rate_relay::price::Price;
use rate_relay::scheduler::{apply_fetch, FetchEvent};
use rate_relay::state::{
    best_with_fallback, compute_pair_minimums, fallback_flag, lookup_min, min_priority_for,
    AppState, PairPriority,
};
use rate_relay::store::PriceStore;

fn obs(pair: &str, source: &str, mantissa: i128, ts: i64) -> PriceData {
    PriceData {
        pair: pair.to_string(),
        price: Price { mantissa, scale: 1 },
        source: source.to_string(),
        timestamp_millis: ts,
    }
}

const T: i64 = 30_000;

#[test]
fn empty_store_has_no_data() {
    let store = PriceStore::new();
    assert!(store.get_best("SOL/USDC", 1_000_000, T).is_none());
    assert!(!store.has_fresh(1_000_000, T));
    assert_eq!(store.len(), 0);
}

#[test]
fn freshness_boundary_in_store() {
    let mut store = PriceStore::new();
    let now = 1_000_000;
    // Aged exactly T: not fresh.
    store.update(obs("SOL/USDC", "jupiter", 1800, now - T), 1);
    assert!(store.get_best("SOL/USDC", now, T).is_none());
    assert!(!store.has_fresh(now, T));
    // Aged T - 1: fresh.
    store.update(obs("SOL/USDC", "jupiter", 1800, now - T + 1), 1);
    assert!(store.get_best("SOL/USDC", now, T).is_some());
    assert!(store.has_fresh(now, T));
}

#[test]
fn no_data_iff_nothing_fresh() {
    let mut store = PriceStore::new();
    let now = 1_000_000;
    store.update(obs("SOL/USDC", "jupiter", 1800, now - T - 5), 1);
    store.update(obs("SOL/USDC", "mock", 1810, now - T - 1), 9);
    assert!(store.get_best("SOL/USDC", now, T).is_none());
    store.update(obs("SOL/USDC", "mock", 1820, now - 1), 9);
    let (d, prio) = store.get_best("SOL/USDC", now, T).unwrap();
    assert_eq!(d.source, "mock");
    assert_eq!(prio, 9);
}

#[test]
fn best_picks_minimal_priority() {
    let mut store = PriceStore::new();
    let now = 1_000_000;
    store.update(obs("SOL/USDC", "mock", 1790, now), 9);
    store.update(obs("SOL/USDC", "jupiter", 1800, now), 1);
    store.update(obs("SOL/USDC", "pyth", 1805, now), 2);
    store.update(obs("BTC/USDC", "mock", 950_000, now), 1);
    let (d, prio) = store.get_best("SOL/USDC", now, T).unwrap();
    assert_eq!(d.source, "jupiter");
    assert_eq!(d.price, Price { mantissa: 1800, scale: 1 });
    assert_eq!(prio, 1);
}

#[test]
fn ties_resolve_by_source_identifier() {
    let mut store = PriceStore::new();
    let now = 1_000_000;
    store.update(obs("SOL/USDC", "zeta", 1790, now), 3);
    store.update(obs("SOL/USDC", "alpha", 1800, now), 3);
    store.update(obs("SOL/USDC", "beta", 1810, now), 3);
    let (d, _) = store.get_best("SOL/USDC", now, T).unwrap();
    assert_eq!(d.source, "alpha");
}

#[test]
fn update_is_idempotent() {
    let mut once = PriceStore::new();
    let mut twice = PriceStore::new();
    let now = 1_000_000;
    once.update(obs("SOL/USDC", "jupiter", 1800, now), 1);
    twice.update(obs("SOL/USDC", "jupiter", 1800, now), 1);
    twice.update(obs("SOL/USDC", "jupiter", 1800, now), 1);
    assert_eq!(once.len(), twice.len());
    let a = once.get_best("SOL/USDC", now, T).unwrap();
    let b = twice.get_best("SOL/USDC", now, T).unwrap();
    assert_eq!(a.0.price, b.0.price);
    assert_eq!(a.0.source, b.0.source);
    assert_eq!(a.1, b.1);
}

#[test]
fn interleaved_writers_keep_every_key() {
    // Two writers with disjoint keys, their updates interleaved: the final
    // store holds exactly one entry per key, equal to that key's last update.
    let mut store = PriceStore::new();
    let now = 1_000_000;
    for round in 0..50 {
        store.update(obs("SOL/USDC", "jupiter", 1800 + round, now), 1);
        store.update(obs("BTC/USDC", "mock", 950_000 + round, now), 2);
    }
    assert_eq!(store.len(), 2);
    let (sol, _) = store.get_best("SOL/USDC", now, T).unwrap();
    let (btc, _) = store.get_best("BTC/USDC", now, T).unwrap();
    assert_eq!(sol.price, Price { mantissa: 1849, scale: 1 });
    assert_eq!(btc.price, Price { mantissa: 950_049, scale: 1 });
}

#[test]
fn failed_fetch_never_alters_store() {
    let mut store = PriceStore::new();
    let now = 1_000_000;
    store.update(obs("SOL/USDC", "jupiter", 1800, now), 1);
    let errors = vec![
        FeedError::HttpError("connection refused".to_string()),
        FeedError::ParseError("bad shape".to_string()),
        FeedError::InvalidData("negative".to_string()),
        FeedError::NotImplemented("nope".to_string()),
    ];
    for e in errors {
        let ev = apply_fetch(
            &mut store,
            "jupiter".to_string(),
            "SOL/USDC".to_string(),
            Err(e.clone()),
            1,
        );
        match ev {
            FetchEvent::Failure { source, pair, error } => {
                assert_eq!(source, "jupiter");
                assert_eq!(pair, "SOL/USDC");
                assert_eq!(error, e);
            }
            FetchEvent::Success { .. } => panic!("a failure must report a failure event"),
        }
        assert_eq!(store.len(), 1);
        let (d, _) = store.get_best("SOL/USDC", now, T).unwrap();
        assert_eq!(d.price, Price { mantissa: 1800, scale: 1 });
    }
}

#[test]
fn successful_fetch_updates_store_and_reports() {
    let mut store = PriceStore::new();
    let now = 1_000_000;
    let ev = apply_fetch(
        &mut store,
        "jupiter".to_string(),
        "SOL/USDC".to_string(),
        Ok(obs("SOL/USDC", "jupiter", 1822, now)),
        1,
    );
    match ev {
        FetchEvent::Success { source, pair, price } => {
            assert_eq!(source, "jupiter");
            assert_eq!(pair, "SOL/USDC");
            assert_eq!(price, Price { mantissa: 1822, scale: 1 });
        }
        FetchEvent::Failure { .. } => panic!("a success must report a success event"),
    }
    assert_eq!(store.len(), 1);
}

#[test]
fn minimum_priority_over_registrations() {
    let regs = vec![
        PairPriority { pair: "SOL/USDC".to_string(), priority: 2 },
        PairPriority { pair: "SOL/USDC".to_string(), priority: 1 },
        PairPriority { pair: "BTC/USDC".to_string(), priority: 5 },
    ];
    assert_eq!(min_priority_for(&regs, "SOL/USDC"), Some(1));
    assert_eq!(min_priority_for(&regs, "BTC/USDC"), Some(5));
    assert_eq!(min_priority_for(&regs, "ETH/USDC"), None);
    let mins = compute_pair_minimums(&regs);
    assert_eq!(lookup_min(&mins, "SOL/USDC"), Some(1));
    assert_eq!(lookup_min(&mins, "BTC/USDC"), Some(5));
    assert_eq!(lookup_min(&mins, "ETH/USDC"), None);
    assert!(!fallback_flag(&mins, "SOL/USDC", 1));
    assert!(fallback_flag(&mins, "SOL/USDC", 2));
    assert!(fallback_flag(&mins, "ETH/USDC", 1));
}

#[test]
fn fallback_scenario_two_sources() {
    // Sources A (priority 1) and B (priority 2), both configured for
    // SOL/USDC. Only B fresh: B's price with fallback. Both fresh: A's price,
    // no fallback.
    let regs = vec![
        PairPriority { pair: "SOL/USDC".to_string(), priority: 1 },
        PairPriority { pair: "SOL/USDC".to_string(), priority: 2 },
    ];
    let mins = compute_pair_minimums(&regs);
    let now = 1_000_000;

    let mut store = PriceStore::new();
    store.update(obs("SOL/USDC", "a_source", 1800, now - T - 1), 1);
    store.update(obs("SOL/USDC", "b_source", 1790, now - 1), 2);
    let (d, fb) = best_with_fallback(&store, &mins, "SOL/USDC", now, T).unwrap();
    assert_eq!(d.source, "b_source");
    assert_eq!(d.price, Price { mantissa: 1790, scale: 1 });
    assert!(fb);

    store.update(obs("SOL/USDC", "a_source", 1800, now - 1), 1);
    let (d, fb) = best_with_fallback(&store, &mins, "SOL/USDC", now, T).unwrap();
    assert_eq!(d.source, "a_source");
    assert_eq!(d.price, Price { mantissa: 1800, scale: 1 });
    assert!(!fb);
}

#[test]
fn app_state_round_trip() {
    let regs = vec![
        PairPriority { pair: "SOL/USDC".to_string(), priority: 1 },
        PairPriority { pair: "SOL/USDC".to_string(), priority: 2 },
    ];
    let state = AppState::new(30, regs);
    assert_eq!(state.threshold_millis(), 30_000);
    assert!(!state.has_fresh_data());
    assert!(state.get_price("SOL/USDC").is_none());

    let now = chrono::Utc::now().timestamp_millis();
    state.update_price(obs("SOL/USDC", "jupiter", 1801, now), 1);
    assert!(state.has_fresh_data());
    let (d, fb) = state.get_price("SOL/USDC").unwrap();
    assert_eq!(d.pair, "SOL/USDC");
    assert_eq!(d.source, "jupiter");
    assert_eq!(d.price, Price { mantissa: 1801, scale: 1 });
    assert!(!fb);
    assert!(state.get_price("BTC/USDC").is_none());
}

#[test]
fn app_state_fetch_events() {
    let state = AppState::new(30, Vec::new());
    let now = chrono::Utc::now().timestamp_millis();
    let ev = state.on_fetch_result(
        "jupiter".to_string(),
        "SOL/USDC".to_string(),
        Ok(obs("SOL/USDC", "jupiter", 1800, now)),
        1,
    );
    assert!(matches!(ev, FetchEvent::Success { .. }));
    assert!(state.has_fresh_data());

    let before = state.get_price("SOL/USDC").unwrap();
    let ev = state.on_fetch_result(
        "jupiter".to_string(),
        "SOL/USDC".to_string(),
        Err(FeedError::HttpError("timeout".to_string())),
        1,
    );
    assert!(matches!(ev, FetchEvent::Failure { .. }));
    let after = state.get_price("SOL/USDC").unwrap();
    assert_eq!(before.0.price, after.0.price);
    assert_eq!(before.0.timestamp_millis, after.0.timestamp_millis);
}
