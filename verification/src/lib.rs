//! A tiered market-data cache: a persistent key-value store with TTL
//! expiry shared across processes, a process-local hot cache, a
//! read-through service layer, and the decision core of the ingestion
//! daemon that keeps the store fresh.

pub mod agents;
pub mod clock;
pub mod config;
pub mod daemon;
pub mod errors;
pub mod json_text;
pub mod key_patterns;
pub mod market;
pub mod memory;
pub mod numbers;
pub mod parser;
pub mod payload;
pub mod prompts;
pub mod schema;
pub mod service;
pub mod store;
pub mod store_model;
pub mod stream;
pub mod text;
pub mod trade;
