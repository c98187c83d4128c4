//! The tiered read-through layer: hot cache first, then the shared store,
//! promoting store hits into the hot tier on the way back.
//!
//! Promotion is best effort and never required for correctness: a hot miss
//! followed by a store hit is just a slower read. Only single-key lookups
//! use the hot tier; symbol and prefix queries always go to the store.
//! Store reads, like the reader's own, speak of the snapshot each call
//! ran on: a concurrent writer may commit between any two calls.

use vstd::prelude::*;

use crate::clock::now_rfc3339;
use crate::errors::CacheError;
use crate::memory::{no_entries, MemoryCache, MAX_HOT_TTL_MILLIS};
use crate::payload::{
    json_parses, json_value_of, object_entries, object_insert, object_keys, object_new,
    parse_json_value,
};
use crate::schema::{CacheRow, CacheRowView};
use crate::store::{rows_view, SqliteReader};
use crate::store_model::{
    row_visible_at, rows_index_table, table_ok, visible_get, visible_prefix_keys,
    visible_symbol_keys, TableModel,
};

verus! {

/// The keys a domain snapshot for `sym` carries against table `tab` at
/// time `t`: exactly the visible rows for the symbol whose payloads
/// parse as JSON.
pub open spec fn snapshot_keys(tab: TableModel, sym: Seq<char>, t: Seq<char>) -> Set<Seq<char>> {
    tab.dom().filter(
        |k: Seq<char>|
            tab[k].symbol == Some(sym) && row_visible_at(tab[k], t) && json_parses(
                tab[k].value_json,
            ),
    )
}

/// The keys of the rows in `rs` whose payloads parse as JSON.
pub open spec fn parseable_keys(rs: Seq<CacheRowView>) -> Set<Seq<char>> {
    Set::new(
        |k: Seq<char>|
            exists|i: int|
                0 <= i < rs.len() && (#[trigger] rs[i]).key == k && json_parses(
                    rs[i].value_json,
                ),
    )
}

/// Read-through cache over one reading handle to the shared store.
pub struct CacheReader {
    memory: MemoryCache,
    sqlite: SqliteReader,
}

impl CacheReader {
    /// What the hot tier was last given under each key.
    pub closed spec fn hot(&self) -> Map<Seq<char>, Seq<char>> {
        self.memory.entries()
    }

    /// A service whose hot tier starts empty: every process starts cold
    /// and repopulates its own hot cache lazily. Hot entries live
    /// `memory_ttl_millis` from insertion.
    pub fn new(sqlite: SqliteReader, max_capacity: u64, memory_ttl_millis: u64) -> (r: CacheReader)
        requires
            memory_ttl_millis <= MAX_HOT_TTL_MILLIS,
        ensures
            r.hot() == no_entries(),
    {
        CacheReader { memory: MemoryCache::new(max_capacity, memory_ttl_millis), sqlite }
    }

    /// The raw payload under `key`: from the hot tier when it holds the
    /// key, else from the store, promoting a store hit into the hot tier.
    /// `None` is a miss, not an error.
    pub fn get_json(&mut self, key: &str) -> (r: Result<Option<String>, CacheError>)
        ensures
            r matches Ok(opt) ==> match opt {
                Some(v) => {
                    ||| {
                        &&& old(self).hot().dom().contains(key@)
                        &&& v@ == old(self).hot()[key@]
                        &&& final(self).hot() == old(self).hot()
                    }
                    ||| {
                        &&& exists|tab: TableModel, t: Seq<char>|
                            #![trigger visible_get(tab, key@, t)]
                            table_ok(tab) && (visible_get(tab, key@, t) matches Some(row) && v@
                                == row.value_json)
                        &&& final(self).hot() == old(self).hot().insert(key@, v@)
                    }
                },
                None => final(self).hot() == old(self).hot() && exists|
                    tab: TableModel,
                    t: Seq<char>,
                |
                    #![trigger visible_get(tab, key@, t)]
                    table_ok(tab) && visible_get(tab, key@, t) is None,
            },
            r is Err ==> final(self).hot() == old(self).hot(),
    {
        if let Some(v) = self.memory.get(key) {
            return Ok(Some(v));
        }
        let now = now_rfc3339();
        match self.sqlite.get_at(key, now.as_str()) {
            Err(e) => Err(e),
            Ok(None) => {
                proof {
                    let tab = choose|tab: TableModel|
                        #![trigger visible_get(tab, key@, now@)]
                        table_ok(tab) && crate::store::opt_row_view(None::<CacheRow>)
                            == visible_get(tab, key@, now@);
                    assert(table_ok(tab) && visible_get(tab, key@, now@) is None);
                }
                Ok(None)
            },
            Ok(Some(row)) => {
                proof {
                    let tab = choose|tab: TableModel|
                        #![trigger visible_get(tab, key@, now@)]
                        table_ok(tab) && crate::store::opt_row_view(Some(row))
                            == visible_get(tab, key@, now@);
                    assert(table_ok(tab) && (visible_get(tab, key@, now@) matches Some(r0)
                        && row.value_json@ == r0.value_json));
                }
                let value = row.value_json;
                self.memory.insert(key_to_string(key), value.clone());
                Ok(Some(value))
            },
        }
    }

    /// Every row of the snapshot read that is tagged with `symbol` and
    /// unexpired at the moment the clock is read; straight from the
    /// store, never the hot tier.
    pub fn get_by_symbol(&self, symbol: &str) -> (r: Result<Vec<CacheRow>, CacheError>)
        ensures
            r matches Ok(v) ==> exists|tab: TableModel, t: Seq<char>|
                #![trigger rows_index_table(rows_view(v@), tab, visible_symbol_keys(tab, symbol@, t))]
                table_ok(tab) && rows_index_table(
                    rows_view(v@),
                    tab,
                    visible_symbol_keys(tab, symbol@, t),
                ),
    {
        self.sqlite.get_by_symbol(symbol)
    }

    /// Every row of the snapshot read whose key starts with `prefix`,
    /// unexpired at the moment the clock is read; straight from the
    /// store, never the hot tier.
    pub fn get_by_prefix(&self, prefix: &str) -> (r: Result<Vec<CacheRow>, CacheError>)
        ensures
            r matches Ok(v) ==> exists|tab: TableModel, t: Seq<char>|
                #![trigger rows_index_table(rows_view(v@), tab, visible_prefix_keys(tab, prefix@, t))]
                table_ok(tab) && rows_index_table(
                    rows_view(v@),
                    tab,
                    visible_prefix_keys(tab, prefix@, t),
                ),
    {
        self.sqlite.get_by_prefix(prefix)
    }

    /// One object holding exactly the rows visible for `symbol` at `now`
    /// in the snapshot read, each row's key mapped to its parsed payload;
    /// rows whose payloads do not parse are left out. Bypasses the hot
    /// tier entirely.
    pub fn build_domain_snapshot_at(&self, symbol: &str, now: &str) -> (r: Result<
        serde_json::Map<String, serde_json::Value>,
        CacheError,
    >)
        ensures
            r matches Ok(m) ==> exists|tab: TableModel|
                #![trigger snapshot_keys(tab, symbol@, now@)]
                {
                    &&& table_ok(tab)
                    &&& object_keys(m) == snapshot_keys(tab, symbol@, now@)
                    &&& forall|k: Seq<char>|
                        #[trigger] object_keys(m).contains(k) ==> object_entries(m)[k]
                            == json_value_of(tab[k].value_json)
                },
    {
        let rows = match self.sqlite.get_by_symbol_at(symbol, now) {
            Ok(v) => v,
            Err(e) => {
                return Err(e);
            },
        };
        let ghost tab = choose|tab: TableModel|
            #![trigger rows_index_table(rows_view(rows@), tab, visible_symbol_keys(tab, symbol@, now@))]
            table_ok(tab) && rows_index_table(
                rows_view(rows@),
                tab,
                visible_symbol_keys(tab, symbol@, now@),
            );
        let ghost rv = rows_view(rows@);
        let obj = snapshot_from_rows(&rows);
        proof {
            assert forall|k: Seq<char>| #[trigger] snapshot_keys(tab, symbol@, now@).contains(
                k,
            ) implies parseable_keys(rv).contains(k) by {
                assert(visible_symbol_keys(tab, symbol@, now@).contains(k));
                let j = choose|j: int| 0 <= j < rv.len() && (#[trigger] rv[j]).key == k;
                assert(rv[j] == tab[k]);
                assert(json_parses(rv[j].value_json));
            }
            assert forall|k: Seq<char>| #[trigger] parseable_keys(rv).contains(k) implies
                snapshot_keys(tab, symbol@, now@).contains(k) by {
                let i = choose|i: int|
                    0 <= i < rv.len() && (#[trigger] rv[i]).key == k && json_parses(
                        rv[i].value_json,
                    );
                assert(visible_symbol_keys(tab, symbol@, now@).contains(rv[i].key));
                assert(rv[i] == tab[k]);
            }
            assert(object_keys(obj) =~= snapshot_keys(tab, symbol@, now@));
            assert forall|k: Seq<char>| #[trigger] object_keys(obj).contains(k) implies
                object_entries(obj)[k] == json_value_of(tab[k].value_json) by {
                let i = choose|i: int|
                    0 <= i < rv.len() && (#[trigger] rv[i]).key == k && json_parses(
                        rv[i].value_json,
                    );
                assert forall|j: int|
                    0 <= j < rv.len() && j != i implies (#[trigger] rv[j]).key != rv[i].key by {
                }
                assert(object_entries(obj)[rv[i].key] == json_value_of(rv[i].value_json));
                assert(rv[i] == tab[k]);
            }
        }
        Ok(obj)
    }

    /// As `build_domain_snapshot_at`, with "now" taken from the wall
    /// clock: the consolidated view handed to downstream consumers.
    pub fn build_domain_snapshot(&self, symbol: &str) -> (r: Result<
        serde_json::Map<String, serde_json::Value>,
        CacheError,
    >)
        ensures
            r matches Ok(m) ==> exists|tab: TableModel, t: Seq<char>|
                #![trigger snapshot_keys(tab, symbol@, t)]
                {
                    &&& table_ok(tab)
                    &&& object_keys(m) == snapshot_keys(tab, symbol@, t)
                    &&& forall|k: Seq<char>|
                        #[trigger] object_keys(m).contains(k) ==> object_entries(m)[k]
                            == json_value_of(tab[k].value_json)
                },
    {
        let now = now_rfc3339();
        let r = self.build_domain_snapshot_at(symbol, now.as_str());
        proof {
            if r is Ok {
                let m = r->Ok_0;
                let tab = choose|tab: TableModel|
                    #![trigger snapshot_keys(tab, symbol@, now@)]
                    {
                        &&& table_ok(tab)
                        &&& object_keys(m) == snapshot_keys(tab, symbol@, now@)
                        &&& forall|k: Seq<char>|
                            #[trigger] object_keys(m).contains(k) ==> object_entries(m)[k]
                                == json_value_of(tab[k].value_json)
                    };
                assert(table_ok(tab) && object_keys(m) == snapshot_keys(tab, symbol@, now@));
            }
        }
        r
    }

    /// How many entries the hot tier estimates it holds.
    pub fn hot_cache_size(&self) -> u64 {
        self.memory.entry_count()
    }
}

/// One object built from the given rows: a key for each row whose
/// payload parses, mapped to that payload's parsed value; rows that do
/// not parse are left out.
#[verifier::rlimit(60)]
pub fn snapshot_from_rows(rows: &Vec<CacheRow>) -> (m: serde_json::Map<
    String,
    serde_json::Value,
>)
    ensures
        object_keys(m) == parseable_keys(rows_view(rows@)),
        forall|i: int|
            0 <= i < rows@.len() && json_parses((#[trigger] rows_view(rows@)[i]).value_json) && (
            forall|j: int|
                0 <= j < rows@.len() && j != i ==> (#[trigger] rows_view(rows@)[j]).key
                    != rows_view(rows@)[i].key) ==> object_entries(m)[rows_view(rows@)[i].key]
            == json_value_of(rows_view(rows@)[i].value_json),
{
    let ghost rv = rows_view(rows@);
    let mut obj = object_new();
    let mut i: usize = 0;
    while i < rows.len()
        invariant
            i <= rows@.len(),
            rv == rows_view(rows@),
            forall|k: Seq<char>|
                #[trigger] object_keys(obj).contains(k) <==> exists|j: int|
                    0 <= j < i && (#[trigger] rv[j]).key == k && json_parses(rv[j].value_json),
            forall|j: int|
                0 <= j < i && json_parses((#[trigger] rv[j]).value_json) && (forall|j2: int|
                    j < j2 < i ==> (#[trigger] rv[j2]).key != rv[j].key) ==> object_entries(obj)[
                rv[j].key] == json_value_of(rv[j].value_json),
        decreases rows@.len() - i,
    {
        let row = &rows[i];
        assert(rv[i as int] == rows@[i as int]@);
        let ghost prev = object_entries(obj);
        proof {
            assert forall|k: Seq<char>| #[trigger] prev.dom().contains(k) implies exists|j: int|
                0 <= j < i && (#[trigger] rv[j]).key == k && json_parses(rv[j].value_json) by {
                assert(object_keys(obj).contains(k));
            }
            assert forall|j: int|
                0 <= j < i && json_parses((#[trigger] rv[j]).value_json) implies prev.dom().contains(
                rv[j].key,
            ) by {
                assert(object_keys(obj).contains(rv[j].key));
            }
            assert forall|j: int|
                0 <= j < i && json_parses((#[trigger] rv[j]).value_json) && (forall|j2: int|
                    j < j2 < i ==> (#[trigger] rv[j2]).key != rv[j].key) implies prev[rv[j].key]
                == json_value_of(rv[j].value_json) by {
                assert(object_entries(obj)[rv[j].key] == json_value_of(rv[j].value_json));
            }
        }
        match parse_json_value(row.value_json.as_str()) {
            Some(value) => {
                proof {
                    assert(value == json_value_of(rv[i as int].value_json));
                }
                object_insert(&mut obj, row.key.clone(), value);
                proof {
                    assert(object_entries(obj) == prev.insert(rv[i as int].key, value));
                }
            },
            None => {
                proof {
                    assert(!json_parses(rv[i as int].value_json));
                    assert(object_entries(obj) == prev);
                }
            },
        }
        proof {
            assert forall|k: Seq<char>| #[trigger] object_keys(obj).contains(k) implies exists|
                j: int,
            | 0 <= j < i + 1 && (#[trigger] rv[j]).key == k && json_parses(
                rv[j].value_json,
            ) by {
                if prev.dom().contains(k) {
                    let j0 = choose|j: int|
                        0 <= j < i && (#[trigger] rv[j]).key == k && json_parses(
                            rv[j].value_json,
                        );
                    assert(0 <= j0 < i + 1 && rv[j0].key == k);
                } else {
                    assert(rv[i as int].key == k && json_parses(rv[i as int].value_json));
                }
            }
            assert forall|j: int|
                0 <= j < i + 1 && json_parses((#[trigger] rv[j]).value_json) implies object_keys(
                obj,
            ).contains(rv[j].key) by {
                if j < i {
                    assert(prev.dom().contains(rv[j].key));
                }
            }
            assert forall|j: int|
                0 <= j < i + 1 && json_parses((#[trigger] rv[j]).value_json) && (forall|j2: int|
                    j < j2 < i + 1 ==> (#[trigger] rv[j2]).key != rv[j].key) implies
                object_entries(obj)[rv[j].key] == json_value_of(rv[j].value_json) by {
                if j < i {
                    assert(forall|j2: int| j < j2 < i ==> (#[trigger] rv[j2]).key != rv[j].key);
                    assert(prev[rv[j].key] == json_value_of(rv[j].value_json));
                    assert(rv[i as int].key != rv[j].key);
                }
            }
        }
        i = i + 1;
    }
    proof {
        assert(object_keys(obj) =~= parseable_keys(rv));
    }
    obj
}

/// An owned copy of a borrowed key, for promotion into the hot tier.
fn key_to_string(key: &str) -> (r: String)
    ensures
        r@ == key@,
{
    String::from_str(key)
}

} // verus!
