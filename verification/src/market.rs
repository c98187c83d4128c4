//! Turning market data into cache rows: candle series and computed
//! indicators, rendered as JSON payloads under the conventional keys.
//!
//! Prices arrive already rendered as decimal strings; the numeric work
//! that produced them is the business of the upstream libraries, not of
//! the store.

use vstd::prelude::*;

use crate::clock::now_and_expiry;
use crate::json_text::{append_number_member, append_string_member, json_quoted};
use crate::key_patterns;
use crate::numbers::{dec_str, parse_i64, parse_i64_spec};
use crate::schema::{CacheRow, CacheRowView};
use crate::text::{last_index_of, str_eq};

verus! {

/// One candle, its prices already rendered as decimal strings.
pub struct CandleData {
    pub timestamp: String,
    pub open_price: String,
    pub high_price: String,
    pub low_price: String,
    pub close_price: String,
    pub volume: u64,
}

/// The JSON object one candle is rendered as, members in name order.
pub open spec fn candle_json(c: CandleData) -> Seq<char> {
    seq!['{'] + json_quoted("close"@) + seq![':'] + json_quoted(c.close_price@) + seq![',']
        + json_quoted("high"@) + seq![':'] + json_quoted(c.high_price@) + seq![',']
        + json_quoted("low"@) + seq![':'] + json_quoted(c.low_price@) + seq![',']
        + json_quoted("open"@) + seq![':'] + json_quoted(c.open_price@) + seq![',']
        + json_quoted("timestamp"@) + seq![':'] + json_quoted(c.timestamp@) + seq![',']
        + json_quoted("volume"@) + seq![':'] + dec_str(c.volume as nat) + seq!['}']
}

/// The candles rendered one after another, separated by commas.
pub open spec fn candles_joined(cs: Seq<CandleData>) -> Seq<char>
    decreases cs.len(),
{
    if cs.len() == 0 {
        Seq::empty()
    } else if cs.len() == 1 {
        candle_json(cs.last())
    } else {
        candles_joined(cs.drop_last()) + seq![','] + candle_json(cs.last())
    }
}

/// The JSON array holding a whole candle series.
pub open spec fn bars_value_json(cs: Seq<CandleData>) -> Seq<char> {
    seq!['['] + candles_joined(cs) + seq![']']
}

/// The JSON object a quote is rendered as: the latest candle's close,
/// stamp and volume.
pub open spec fn quote_value_json(c: CandleData) -> Seq<char> {
    seq!['{'] + json_quoted("price"@) + seq![':'] + json_quoted(c.close_price@) + seq![',']
        + json_quoted("timestamp"@) + seq![':'] + json_quoted(c.timestamp@) + seq![',']
        + json_quoted("volume"@) + seq![':'] + dec_str(c.volume as nat) + seq!['}']
}

/// The row carrying a symbol's whole candle series.
pub open spec fn bars_row_view(
    symbol: Seq<char>,
    cs: Seq<CandleData>,
    category: Seq<char>,
    now: Seq<char>,
    expires_at: Seq<char>,
) -> CacheRowView {
    CacheRowView {
        key: "bars:"@ + symbol + ":"@ + "5m"@,
        category: category,
        value_json: bars_value_json(cs),
        source: "market-data"@,
        symbol: Some(symbol),
        created_at: now,
        expires_at: expires_at,
        updated_at: now,
    }
}

/// The row carrying a symbol's latest quote.
pub open spec fn quote_row_view(
    symbol: Seq<char>,
    c: CandleData,
    category: Seq<char>,
    now: Seq<char>,
    expires_at: Seq<char>,
) -> CacheRowView {
    CacheRowView {
        key: "quote:"@ + symbol,
        category: category,
        value_json: quote_value_json(c),
        source: "market-data"@,
        symbol: Some(symbol),
        created_at: now,
        expires_at: expires_at,
        updated_at: now,
    }
}

/// The row carrying one computed indicator.
pub open spec fn indicator_row_view(
    name: Seq<char>,
    symbol: Seq<char>,
    value_json: Seq<char>,
    now: Seq<char>,
    expires_at: Seq<char>,
) -> CacheRowView {
    CacheRowView {
        key: "indicator:"@ + name + ":"@ + symbol,
        category: "indicator"@,
        value_json: value_json,
        source: "market-calculations"@,
        symbol: Some(symbol),
        created_at: now,
        expires_at: expires_at,
        updated_at: now,
    }
}

/// Appends one candle's JSON object.
fn append_candle_json(out: &mut String, c: &CandleData)
    ensures
        final(out)@ == old(out)@ + candle_json(*c),
{
    out.push('{');
    append_string_member(out, "close", c.close_price.as_str());
    out.push(',');
    append_string_member(out, "high", c.high_price.as_str());
    out.push(',');
    append_string_member(out, "low", c.low_price.as_str());
    out.push(',');
    append_string_member(out, "open", c.open_price.as_str());
    out.push(',');
    append_string_member(out, "timestamp", c.timestamp.as_str());
    out.push(',');
    append_number_member(out, "volume", c.volume);
    out.push('}');
    assert(out@ =~= old(out)@ + candle_json(*c));
}

/// Renders a whole candle series as one JSON array.
fn bars_value(candles: &Vec<CandleData>) -> (r: String)
    ensures
        r@ == bars_value_json(candles@),
{
    let mut out = String::new();
    out.push('[');
    let mut i: usize = 0;
    while i < candles.len()
        invariant
            i <= candles@.len(),
            out@ == seq!['['] + candles_joined(candles@.take(i as int)),
        decreases candles@.len() - i,
    {
        if i > 0 {
            out.push(',');
        }
        append_candle_json(&mut out, &candles[i]);
        proof {
            assert(candles@.take(i + 1).drop_last() =~= candles@.take(i as int));
            assert(candles@.take(i + 1).last() == candles@[i as int]);
            assert(out@ =~= seq!['['] + candles_joined(candles@.take(i + 1)));
        }
        i = i + 1;
    }
    out.push(']');
    proof {
        assert(candles@.take(candles@.len() as int) =~= candles@);
        assert(out@ =~= bars_value_json(candles@));
    }
    out
}

/// Renders the latest candle as one JSON quote object.
fn quote_value(c: &CandleData) -> (r: String)
    ensures
        r@ == quote_value_json(*c),
{
    let mut out = String::new();
    out.push('{');
    append_string_member(&mut out, "price", c.close_price.as_str());
    out.push(',');
    append_string_member(&mut out, "timestamp", c.timestamp.as_str());
    out.push(',');
    append_number_member(&mut out, "volume", c.volume);
    out.push('}');
    assert(out@ =~= quote_value_json(*c));
    out
}

/// The two rows a non-empty candle series becomes — the series under
/// `bars:{symbol}:5m` and the latest quote under `quote:{symbol}` — with
/// the given write and expiry stamps; an empty series becomes no rows.
pub fn candles_to_cache_rows_at(
    symbol: &str,
    candles: &Vec<CandleData>,
    category: &str,
    now: &str,
    expires_at: &str,
) -> (r: Vec<CacheRow>)
    ensures
        candles@.len() == 0 ==> r@.len() == 0,
        candles@.len() > 0 ==> {
            &&& r@.len() == 2
            &&& r@[0]@ == bars_row_view(symbol@, candles@, category@, now@, expires_at@)
            &&& r@[1]@ == quote_row_view(
                symbol@,
                candles@.last(),
                category@,
                now@,
                expires_at@,
            )
        },
{
    let mut rows: Vec<CacheRow> = Vec::new();
    if candles.len() == 0 {
        return rows;
    }
    let bars_row = CacheRow {
        key: key_patterns::bars(symbol, "5m"),
        category: String::from_str(category),
        value_json: bars_value(candles),
        source: String::from_str("market-data"),
        symbol: Some(String::from_str(symbol)),
        created_at: String::from_str(now),
        expires_at: String::from_str(expires_at),
        updated_at: String::from_str(now),
    };
    rows.push(bars_row);
    let latest = &candles[candles.len() - 1];
    let quote_row = CacheRow {
        key: key_patterns::quote(symbol),
        category: String::from_str(category),
        value_json: quote_value(latest),
        source: String::from_str("market-data"),
        symbol: Some(String::from_str(symbol)),
        created_at: String::from_str(now),
        expires_at: String::from_str(expires_at),
        updated_at: String::from_str(now),
    };
    rows.push(quote_row);
    rows
}

/// As `candles_to_cache_rows_at`, with the write stamp taken from the
/// wall clock and the expiry `ttl_seconds` later.
pub fn candles_to_cache_rows(
    symbol: &str,
    candles: &Vec<CandleData>,
    category: &str,
    ttl_seconds: u64,
) -> (r: Vec<CacheRow>)
    ensures
        candles@.len() == 0 ==> r@.len() == 0,
        candles@.len() > 0 ==> exists|now: Seq<char>, expires_at: Seq<char>|
            {
                &&& r@.len() == 2
                &&& (#[trigger] r@[0]@) == bars_row_view(
                    symbol@,
                    candles@,
                    category@,
                    now,
                    expires_at,
                )
                &&& r@[1]@ == quote_row_view(
                    symbol@,
                    candles@.last(),
                    category@,
                    now,
                    expires_at,
                )
            },
{
    let (now, expires_at) = now_and_expiry(ttl_seconds);
    let r = candles_to_cache_rows_at(symbol, candles, category, now.as_str(), expires_at.as_str());
    proof {
        if candles@.len() > 0 {
            assert(r@[0]@ == bars_row_view(symbol@, candles@, category@, now@, expires_at@));
        }
    }
    r
}

/// The row one computed indicator becomes, its payload already rendered,
/// with the given write and expiry stamps.
pub fn indicator_to_cache_row_at(
    indicator_name: &str,
    symbol: &str,
    value_json: &str,
    now: &str,
    expires_at: &str,
) -> (r: CacheRow)
    ensures
        r@ == indicator_row_view(indicator_name@, symbol@, value_json@, now@, expires_at@),
{
    CacheRow {
        key: key_patterns::indicator(indicator_name, symbol),
        category: String::from_str("indicator"),
        value_json: String::from_str(value_json),
        source: String::from_str("market-calculations"),
        symbol: Some(String::from_str(symbol)),
        created_at: String::from_str(now),
        expires_at: String::from_str(expires_at),
        updated_at: String::from_str(now),
    }
}

/// As `indicator_to_cache_row_at`, with the write stamp taken from the
/// wall clock and the expiry `ttl_seconds` later.
pub fn indicator_to_cache_row(
    indicator_name: &str,
    symbol: &str,
    value_json: &str,
    ttl_seconds: u64,
) -> (r: CacheRow)
    ensures
        exists|now: Seq<char>, expires_at: Seq<char>|
            (#[trigger] r@) == indicator_row_view(
                indicator_name@,
                symbol@,
                value_json@,
                now,
                expires_at,
            ),
{
    let (now, expires_at) = now_and_expiry(ttl_seconds);
    let r = indicator_to_cache_row_at(
        indicator_name,
        symbol,
        value_json,
        now.as_str(),
        expires_at.as_str(),
    );
    proof {
        assert(r@ == indicator_row_view(indicator_name@, symbol@, value_json@, now@, expires_at@));
    }
    r
}

/// There is exactly one last position of `_` in a sequence.
pub open spec fn is_last_underscore(s: Seq<char>, i: int) -> bool {
    0 <= i < s.len() && s[i] == '_' && (forall|j: int| i < j < s.len() ==> s[j] != '_')
}

/// What an indicator spec splits into: calculation identifier and an
/// optional period. Multi-word identifiers are kept whole; otherwise a
/// numeric suffix after the last underscore becomes the period.
pub open spec fn indicator_split(s: Seq<char>) -> (Seq<char>, Option<int>) {
    if s == "daily_profile"@ || s == "range_trend"@ {
        (s, None)
    } else if exists|i: int| is_last_underscore(s, i) {
        let i = choose|i: int| is_last_underscore(s, i);
        match parse_i64_spec(s.skip(i + 1)) {
            Some(v) => (s.take(i), Some(v)),
            None => (s, None),
        }
    } else {
        (s, None)
    }
}

/// Splits an indicator spec such as `sma_20` into its calculation
/// identifier and period; specs without a numeric suffix, and the known
/// multi-word identifiers, keep their whole name and carry no period.
pub fn parse_indicator_spec(indicator_spec: &str) -> (r: (String, Option<i64>))
    ensures
        r.0@ == indicator_split(indicator_spec@).0,
        match r.1 {
            Some(v) => indicator_split(indicator_spec@).1 == Some(v as int),
            None => indicator_split(indicator_spec@).1 is None,
        },
{
    if str_eq(indicator_spec, "daily_profile") || str_eq(indicator_spec, "range_trend") {
        return (String::from_str(indicator_spec), None);
    }
    match last_index_of(indicator_spec, '_') {
        None => {
            proof {
                assert(forall|i: int| !is_last_underscore(indicator_spec@, i));
            }
            (String::from_str(indicator_spec), None)
        },
        Some(u) => {
            proof {
                assert(is_last_underscore(indicator_spec@, u as int));
                let i0 = choose|i: int| is_last_underscore(indicator_spec@, i);
                assert(i0 == u as int) by {
                    if i0 < u as int {
                        assert(indicator_spec@[u as int] == '_');
                    } else if i0 > u as int {
                        assert(indicator_spec@[i0] == '_');
                    }
                }
            }
            let n = indicator_spec.unicode_len();
            let suffix = indicator_spec.substring_char(u + 1, n);
            match parse_i64(suffix) {
                Some(period) => {
                    let name = indicator_spec.substring_char(0, u);
                    (String::from_str(name), Some(period))
                },
                None => (String::from_str(indicator_spec), None),
            }
        },
    }
}

/// The category a symbol's rows carry: reference symbols are tracked
/// market-wide, everything else is ordinary market data.
pub fn symbol_category(symbol: &str, reference_symbols: &Vec<String>) -> (r: &'static str)
    ensures
        (exists|i: int|
            0 <= i < reference_symbols@.len() && (#[trigger] reference_symbols@[i])@ == symbol@)
            ==> r@ == "reference_symbol"@,
        !(exists|i: int|
            0 <= i < reference_symbols@.len() && (#[trigger] reference_symbols@[i])@ == symbol@)
            ==> r@ == "market_data"@,
{
    let mut i: usize = 0;
    while i < reference_symbols.len()
        invariant
            i <= reference_symbols@.len(),
            forall|j: int| 0 <= j < i ==> (#[trigger] reference_symbols@[j])@ != symbol@,
        decreases reference_symbols@.len() - i,
    {
        if str_eq(reference_symbols[i].as_str(), symbol) {
            return "reference_symbol";
        }
        i = i + 1;
    }
    "market_data"
}

} // verus!
