use std::sync::Arc;

use rate_relay::models::PriceData;
use rate_relay::price::Price;
use rate_relay::state::{AppState, PairPriority};

// Many concurrent writer tasks, each performing many updates to disjoint
// (pair, source) keys: the final store holds exactly one entry per key, equal
// to that key's last applied update, with no lost writes.
#[test]
fn concurrent_writers_lose_no_updates() {
    let writers: u32 = 4;
    let rounds: i128 = 200;
    let regs = (0..writers)
        .map(|w| PairPriority { pair: format!("P{}/USDC", w), priority: w })
        .collect();
    let state = Arc::new(AppState::new(30, regs));
    let rt = tokio::runtime::Runtime::new().unwrap();
    rt.block_on(async {
        let mut handles = Vec::new();
        for w in 0..writers {
            let state = Arc::clone(&state);
            handles.push(tokio::spawn(async move {
                let pair = format!("P{}/USDC", w);
                let now = chrono::Utc::now().timestamp_millis();
                for round in 0..rounds {
                    state.update_price(
                        PriceData {
                            pair: pair.clone(),
                            price: Price { mantissa: 1000 + round, scale: 1 },
                            source: "writer".to_string(),
                            timestamp_millis: now,
                        },
                        w,
                    );
                }
            }));
        }
        for h in handles {
            h.await.unwrap();
        }
    });
    for w in 0..writers {
        let pair = format!("P{}/USDC", w);
        let (d, fallback) = state.get_price(&pair).unwrap();
        assert_eq!(d.price, Price { mantissa: 1000 + rounds - 1, scale: 1 });
        assert_eq!(d.source, "writer");
        assert!(!fallback);
    }
}

// Concurrent readers proceed together with ongoing writes: every snapshot a
// reader sees satisfies the store's contracts, so each read returns either
// nothing or a well-formed observation for the queried pair.
#[test]
fn concurrent_readers_and_writers() {
    let regs = vec![PairPriority { pair: "SOL/USDC".to_string(), priority: 1 }];
    let state = Arc::new(AppState::new(30, regs));
    let rt = tokio::runtime::Runtime::new().unwrap();
    rt.block_on(async {
        let writer_state = Arc::clone(&state);
        let writer = tokio::spawn(async move {
            let now = chrono::Utc::now().timestamp_millis();
            for round in 0..500i128 {
                writer_state.update_price(
                    PriceData {
                        pair: "SOL/USDC".to_string(),
                        price: Price { mantissa: 1800 + round, scale: 1 },
                        source: "jupiter".to_string(),
                        timestamp_millis: now,
                    },
                    1,
                );
            }
        });
        let mut readers = Vec::new();
        for _ in 0..3 {
            let reader_state = Arc::clone(&state);
            readers.push(tokio::spawn(async move {
                for _ in 0..500 {
                    if let Some((d, fallback)) = reader_state.get_price("SOL/USDC") {
                        assert_eq!(d.pair, "SOL/USDC");
                        assert_eq!(d.source, "jupiter");
                        assert!(1800 <= d.price.mantissa && d.price.mantissa < 2300);
                        assert_eq!(d.price.scale, 1);
                        assert!(!fallback);
                    }
                    let _ = reader_state.has_fresh_data();
                }
            }));
        }
        writer.await.unwrap();
        for r in readers {
            r.await.unwrap();
        }
    });
    let (d, _) = state.get_price("SOL/USDC").unwrap();
    assert_eq!(d.price, Price { mantissa: 2299, scale: 1 });
}
