//! The persisted row, its mathematical view, and the table definition.

use vstd::prelude::*;

verus! {

/// The one table the store keeps, created identically by every handle that
/// opens the database, so writer and reader can initialize it independently.
pub const CACHE_TABLE_DDL: &'static str = "\
CREATE TABLE IF NOT EXISTS cache_entries (
    key         TEXT PRIMARY KEY,
    category    TEXT NOT NULL,
    value_json  TEXT NOT NULL,
    source      TEXT NOT NULL,
    symbol      TEXT,
    created_at  TEXT NOT NULL,
    expires_at  TEXT NOT NULL,
    updated_at  TEXT NOT NULL
);
CREATE INDEX IF NOT EXISTS idx_cache_category ON cache_entries(category);
CREATE INDEX IF NOT EXISTS idx_cache_symbol ON cache_entries(symbol);
CREATE INDEX IF NOT EXISTS idx_cache_expires ON cache_entries(expires_at);
";

/// Categories producers pick from when writing rows.
#[derive(Debug, Clone, PartialEq, Eq, Hash)]
pub enum CacheCategory {
    MarketData,
    Indicator,
    ReferenceSymbol,
    Subscription,
    Sentiment,
}

impl CacheCategory {
    /// The snake_case label stored in a row's `category` column.
    pub fn label(&self) -> (r: String)
        ensures
            r@ == self.label_spec(),
    {
        match self {
            CacheCategory::MarketData => String::from_str("market_data"),
            CacheCategory::Indicator => String::from_str("indicator"),
            CacheCategory::ReferenceSymbol => String::from_str("reference_symbol"),
            CacheCategory::Subscription => String::from_str("subscription"),
            CacheCategory::Sentiment => String::from_str("sentiment"),
        }
    }

    pub open spec fn label_spec(&self) -> Seq<char> {
        match self {
            CacheCategory::MarketData => "market_data"@,
            CacheCategory::Indicator => "indicator"@,
            CacheCategory::ReferenceSymbol => "reference_symbol"@,
            CacheCategory::Subscription => "subscription"@,
            CacheCategory::Sentiment => "sentiment"@,
        }
    }
}

/// What a `CacheRow` is mathematically: every column as a character sequence.
pub ghost struct CacheRowView {
    pub key: Seq<char>,
    pub category: Seq<char>,
    pub value_json: Seq<char>,
    pub source: Seq<char>,
    pub symbol: Option<Seq<char>>,
    pub created_at: Seq<char>,
    pub expires_at: Seq<char>,
    pub updated_at: Seq<char>,
}

/// One row of the shared store. Timestamps are RFC 3339 strings, which the
/// store orders character by character; `value_json` is an opaque payload.
#[derive(Debug, Clone)]
pub struct CacheRow {
    pub key: String,
    pub category: String,
    pub value_json: String,
    pub source: String,
    pub symbol: Option<String>,
    pub created_at: String,
    pub expires_at: String,
    pub updated_at: String,
}

impl CacheRow {
    /// A field-for-field copy whose view equals this row's view.
    pub fn duplicate(&self) -> (r: CacheRow)
        ensures
            r@ == self@,
    {
        CacheRow {
            key: self.key.clone(),
            category: self.category.clone(),
            value_json: self.value_json.clone(),
            source: self.source.clone(),
            symbol: match &self.symbol {
                Some(s) => Some(s.clone()),
                None => None,
            },
            created_at: self.created_at.clone(),
            expires_at: self.expires_at.clone(),
            updated_at: self.updated_at.clone(),
        }
    }
}

impl View for CacheRow {
    type V = CacheRowView;

    open spec fn view(&self) -> CacheRowView {
        CacheRowView {
            key: self.key@,
            category: self.category@,
            value_json: self.value_json@,
            source: self.source@,
            symbol: match self.symbol {
                Some(s) => Some(s@),
                None => None,
            },
            created_at: self.created_at@,
            expires_at: self.expires_at@,
            updated_at: self.updated_at@,
        }
    }
}

} // verus!
