//! Key-naming conventions for the shared cache.
//!
//! Producers write entries under these patterns so consumers can predictably
//! query them. The store itself never parses a key.

use vstd::prelude::*;

verus! {

/// `bars:{symbol}:{timeframe}`, e.g. `bars:AAPL:1d`.
pub fn bars(symbol: &str, timeframe: &str) -> (r: String)
    ensures
        r@ == "bars:"@ + symbol@ + ":"@ + timeframe@,
{
    let mut out = String::from_str("bars:");
    out.append(symbol);
    out.append(":");
    out.append(timeframe);
    out
}

/// `quote:{symbol}`, e.g. `quote:AAPL`.
pub fn quote(symbol: &str) -> (r: String)
    ensures
        r@ == "quote:"@ + symbol@,
{
    let mut out = String::from_str("quote:");
    out.append(symbol);
    out
}

/// `indicator:{name}:{symbol}`, e.g. `indicator:rsi_14:AAPL`.
pub fn indicator(name: &str, symbol: &str) -> (r: String)
    ensures
        r@ == "indicator:"@ + name@ + ":"@ + symbol@,
{
    let mut out = String::from_str("indicator:");
    out.append(name);
    out.append(":");
    out.append(symbol);
    out
}

/// `ref:{symbol}`, e.g. `ref:SPY`.
pub fn reference_symbol(symbol: &str) -> (r: String)
    ensures
        r@ == "ref:"@ + symbol@,
{
    let mut out = String::from_str("ref:");
    out.append(symbol);
    out
}

/// `sentiment:{source}:{symbol}`, e.g. `sentiment:news:AAPL`.
pub fn sentiment(source: &str, symbol: &str) -> (r: String)
    ensures
        r@ == "sentiment:"@ + source@ + ":"@ + symbol@,
{
    let mut out = String::from_str("sentiment:");
    out.append(source);
    out.append(":");
    out.append(symbol);
    out
}

} // verus!
