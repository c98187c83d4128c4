//! Turning real-time stream events into cache rows.
//!
//! An event arrives with its payload already rendered and the tickers it
//! concerns; here it becomes one row per ticker, one generic row when it
//! names none, or one reference row for economic data.

use vstd::prelude::*;

use crate::clock::now_and_expiry;
use crate::schema::{CacheRow, CacheRowView};
use crate::store::rows_view;

verus! {

/// What kind of payload a stream event carries.
pub enum StreamPayloadKind {
    News,
    SocialPost,
    Filing,
    EconomicData { indicator: String },
    CorporateEvent,
    Raw,
}

/// One event from the real-time stream, its payload already rendered.
pub struct StreamEventData {
    pub kind: StreamPayloadKind,
    pub event_id: String,
    pub source: String,
    pub value_json: String,
    pub tickers: Vec<String>,
}

/// The key segment a payload kind writes under.
pub open spec fn kind_prefix(k: StreamPayloadKind) -> Seq<char> {
    match k {
        StreamPayloadKind::News => "news"@,
        StreamPayloadKind::SocialPost => "social"@,
        StreamPayloadKind::Filing => "filing"@,
        StreamPayloadKind::EconomicData { .. } => "econ"@,
        StreamPayloadKind::CorporateEvent => "event"@,
        StreamPayloadKind::Raw => "raw"@,
    }
}

/// The category a payload kind's rows carry.
pub open spec fn kind_category(k: StreamPayloadKind) -> Seq<char> {
    match k {
        StreamPayloadKind::News => "sentiment"@,
        StreamPayloadKind::SocialPost => "sentiment"@,
        StreamPayloadKind::Filing => "subscription"@,
        StreamPayloadKind::EconomicData { .. } => "reference_symbol"@,
        StreamPayloadKind::CorporateEvent => "subscription"@,
        StreamPayloadKind::Raw => "sentiment"@,
    }
}

/// The single row economic data becomes: keyed by indicator, tied to no
/// ticker.
pub open spec fn econ_row_view(
    indicator: Seq<char>,
    e: StreamEventData,
    now: Seq<char>,
    expires_at: Seq<char>,
) -> CacheRowView {
    CacheRowView {
        key: "ref:econ:"@ + indicator,
        category: "reference_symbol"@,
        value_json: e.value_json@,
        source: e.source@,
        symbol: None,
        created_at: now,
        expires_at: expires_at,
        updated_at: now,
    }
}

/// The single row an event naming no ticker becomes.
pub open spec fn general_row_view(
    e: StreamEventData,
    now: Seq<char>,
    expires_at: Seq<char>,
) -> CacheRowView {
    CacheRowView {
        key: "sentiment:"@ + kind_prefix(e.kind) + ":_general_"@ + e.event_id@,
        category: kind_category(e.kind),
        value_json: e.value_json@,
        source: e.source@,
        symbol: None,
        created_at: now,
        expires_at: expires_at,
        updated_at: now,
    }
}

/// The row an event writes for one of its tickers.
pub open spec fn ticker_row_view(
    e: StreamEventData,
    ticker: Seq<char>,
    now: Seq<char>,
    expires_at: Seq<char>,
) -> CacheRowView {
    CacheRowView {
        key: "sentiment:"@ + kind_prefix(e.kind) + ":"@ + ticker,
        category: kind_category(e.kind),
        value_json: e.value_json@,
        source: e.source@,
        symbol: Some(ticker),
        created_at: now,
        expires_at: expires_at,
        updated_at: now,
    }
}

/// Every row one stream event becomes: one per ticker named, one generic
/// row when none is named, one reference row for economic data.
pub open spec fn stream_rows(
    e: StreamEventData,
    now: Seq<char>,
    expires_at: Seq<char>,
) -> Seq<CacheRowView> {
    match e.kind {
        StreamPayloadKind::EconomicData { indicator } => seq![
            econ_row_view(indicator@, e, now, expires_at),
        ],
        _ => {
            if e.tickers@.len() == 0 {
                seq![general_row_view(e, now, expires_at)]
            } else {
                Seq::new(
                    e.tickers@.len(),
                    |i: int| ticker_row_view(e, e.tickers@[i]@, now, expires_at),
                )
            }
        },
    }
}

/// The exec mirror of `kind_prefix`.
fn kind_prefix_str(k: &StreamPayloadKind) -> (r: &'static str)
    ensures
        r@ == kind_prefix(*k),
{
    match k {
        StreamPayloadKind::News => "news",
        StreamPayloadKind::SocialPost => "social",
        StreamPayloadKind::Filing => "filing",
        StreamPayloadKind::EconomicData { .. } => "econ",
        StreamPayloadKind::CorporateEvent => "event",
        StreamPayloadKind::Raw => "raw",
    }
}

/// The exec mirror of `kind_category`.
fn kind_category_str(k: &StreamPayloadKind) -> (r: &'static str)
    ensures
        r@ == kind_category(*k),
{
    match k {
        StreamPayloadKind::News => "sentiment",
        StreamPayloadKind::SocialPost => "sentiment",
        StreamPayloadKind::Filing => "subscription",
        StreamPayloadKind::EconomicData { .. } => "reference_symbol",
        StreamPayloadKind::CorporateEvent => "subscription",
        StreamPayloadKind::Raw => "sentiment",
    }
}

/// The rows one stream event becomes, with the given write and expiry
/// stamps.
pub fn stream_message_to_cache_rows_at(event: &StreamEventData, now: &str, expires_at: &str) -> (r:
    Vec<CacheRow>)
    ensures
        rows_view(r@) == stream_rows(*event, now@, expires_at@),
{
    let mut rows: Vec<CacheRow> = Vec::new();
    match &event.kind {
        StreamPayloadKind::EconomicData { indicator } => {
            let mut key = String::from_str("ref:econ:");
            key.append(indicator.as_str());
            rows.push(
                CacheRow {
                    key,
                    category: String::from_str("reference_symbol"),
                    value_json: event.value_json.clone(),
                    source: event.source.clone(),
                    symbol: None,
                    created_at: String::from_str(now),
                    expires_at: String::from_str(expires_at),
                    updated_at: String::from_str(now),
                },
            );
            assert(rows_view(rows@) =~= stream_rows(*event, now@, expires_at@));
        },
        _ => {
            let prefix = kind_prefix_str(&event.kind);
            let category = kind_category_str(&event.kind);
            if event.tickers.len() == 0 {
                let mut key = String::from_str("sentiment:");
                key.append(prefix);
                key.append(":_general_");
                key.append(event.event_id.as_str());
                rows.push(
                    CacheRow {
                        key,
                        category: String::from_str(category),
                        value_json: event.value_json.clone(),
                        source: event.source.clone(),
                        symbol: None,
                        created_at: String::from_str(now),
                        expires_at: String::from_str(expires_at),
                        updated_at: String::from_str(now),
                    },
                );
                assert(rows_view(rows@) =~= stream_rows(*event, now@, expires_at@));
            } else {
                let mut i: usize = 0;
                while i < event.tickers.len()
                    invariant
                        i <= event.tickers@.len(),
                        event.tickers@.len() > 0,
                        !(event.kind is EconomicData),
                        prefix@ == kind_prefix(event.kind),
                        category@ == kind_category(event.kind),
                        rows@.len() == i,
                        forall|j: int|
                            0 <= j < i ==> (#[trigger] rows@[j])@ == ticker_row_view(
                                *event,
                                event.tickers@[j]@,
                                now@,
                                expires_at@,
                            ),
                    decreases event.tickers@.len() - i,
                {
                    let ticker = &event.tickers[i];
                    let key = crate::key_patterns::sentiment(prefix, ticker.as_str());
                    let row = CacheRow {
                        key,
                        category: String::from_str(category),
                        value_json: event.value_json.clone(),
                        source: event.source.clone(),
                        symbol: Some(ticker.clone()),
                        created_at: String::from_str(now),
                        expires_at: String::from_str(expires_at),
                        updated_at: String::from_str(now),
                    };
                    proof {
                        assert(row@ == ticker_row_view(
                            *event,
                            event.tickers@[i as int]@,
                            now@,
                            expires_at@,
                        ));
                    }
                    rows.push(row);
                    assert(rows@[i as int]@ == ticker_row_view(
                        *event,
                        event.tickers@[i as int]@,
                        now@,
                        expires_at@,
                    ));
                    i = i + 1;
                }
                proof {
                    assert(rows_view(rows@) =~= stream_rows(*event, now@, expires_at@));
                }
            }
        },
    }
    rows
}

/// As `stream_message_to_cache_rows_at`, with the write stamp taken from
/// the wall clock and the expiry `ttl_seconds` later.
pub fn stream_message_to_cache_rows(event: &StreamEventData, ttl_seconds: u64) -> (r: Vec<
    CacheRow,
>)
    ensures
        exists|now: Seq<char>, expires_at: Seq<char>|
            rows_view(r@) == #[trigger] stream_rows(*event, now, expires_at),
{
    let (now, expires_at) = now_and_expiry(ttl_seconds);
    let r = stream_message_to_cache_rows_at(event, now.as_str(), expires_at.as_str());
    proof {
        assert(rows_view(r@) == stream_rows(*event, now@, expires_at@));
    }
    r
}

} // verus!
