//! A price aggregation core: several independent sources feed the most recent
//! quote per (pair, source) key into one shared store, and the store answers
//! best-price queries under a freshness / priority policy.

pub mod config;
pub mod error;
pub mod feeds;
pub mod freshness;
pub mod models;
pub mod price;
pub mod scheduler;
pub mod state;
pub mod store;
pub mod strutil;
