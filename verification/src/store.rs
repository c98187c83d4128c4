//! The persistent store: one SQLite file shared by a writing process and
//! any number of reading processes.
//!
//! The writing handle carries, as a ghost `TableModel`, the logical
//! contents of the table: the spec's discipline makes it the store's sole
//! mutator, so its model tracks the file. A reading handle tracks
//! nothing: a concurrent writer may commit between any two of its calls,
//! so each read is stated against the snapshot it ran on — some
//! well-formed table per call. The handful of functions that actually
//! touch the database are trusted wrappers whose contracts state, over
//! those models, what their SQL does; everything above them is verified.

use vstd::prelude::*;

use crate::clock::now_rfc3339;
use crate::errors::{CacheError, LoaderError};
use crate::schema::{CacheRow, CacheRowView, CACHE_TABLE_DDL};
use crate::store_model::{
    batch_upsert_model, empty_table, retain_fresh, rows_index_table, stale_keys, symbol_keys,
    table_ok, upsert_model, visible_get, visible_prefix_keys, visible_symbol_keys, TableModel,
};
use crate::text::{str_lt, str_starts_with};

verus! {

#[verifier::external_type_specification]
#[verifier::external_body]
pub struct ExConnection(rusqlite::Connection);

/// A fresh, empty bookkeeping model for a newly opened handle.
fn blank_model() -> (g: Ghost<TableModel>)
    ensures
        g@ == empty_table(),
{
    Ghost(empty_table())
}

/// The views of a sequence of rows.
pub open spec fn rows_view(s: Seq<CacheRow>) -> Seq<CacheRowView> {
    s.map_values(|r: CacheRow| r@)
}

/// The view of an optional row.
pub open spec fn opt_row_view(o: Option<CacheRow>) -> Option<CacheRowView> {
    match o {
        Some(r) => Some(r@),
        None => None,
    }
}

/// The writing handle: the sole mutator of the shared store. Its ghost
/// model tracks the file's contents on that understanding; a second
/// writing handle on the same file would put the model in the wrong.
pub struct SqliteWriter {
    conn: rusqlite::Connection,
    table: Ghost<TableModel>,
}

impl SqliteWriter {
    /// The logical contents of the table this handle is connected to.
    pub closed spec fn table(&self) -> TableModel {
        self.table@
    }

    /// Relies on rusqlite::Connection::open, execute_batch and
    /// pragma_update: opens the file read-write, creates the schema if
    /// absent, and turns on write-ahead logging so readers and the writer
    /// never block one another. The file's prior rows are unknown, so only
    /// well-formedness is assumed of them.
    #[verifier::external_body]
    pub fn open(path: &str) -> (r: Result<SqliteWriter, LoaderError>)
        ensures
            r matches Ok(w) ==> table_ok(w.table()),
    {
        let conn = rusqlite::Connection::open(path).map_err(
            |e| LoaderError::Sqlite(e.to_string()),
        )?;
        conn.execute_batch(CACHE_TABLE_DDL).map_err(|e| LoaderError::Sqlite(e.to_string()))?;
        conn.pragma_update(None, "journal_mode", "WAL").map_err(
            |e| LoaderError::Sqlite(e.to_string()),
        )?;
        Ok(SqliteWriter { conn, table: blank_model() })
    }

    /// Relies on rusqlite::Connection::open_in_memory and execute_batch:
    /// a fresh private database holding no rows at all.
    #[verifier::external_body]
    pub fn open_in_memory() -> (r: Result<SqliteWriter, LoaderError>)
        ensures
            r matches Ok(w) ==> w.table() == empty_table() && table_ok(w.table()),
    {
        let conn = rusqlite::Connection::open_in_memory().map_err(
            |e| LoaderError::Sqlite(e.to_string()),
        )?;
        conn.execute_batch(CACHE_TABLE_DDL).map_err(|e| LoaderError::Sqlite(e.to_string()))?;
        Ok(SqliteWriter { conn, table: blank_model() })
    }

    /// Relies on rusqlite::Connection::execute with INSERT OR REPLACE: the
    /// row lands under its key, fully replacing any row that key held; a
    /// failed single statement leaves the table untouched.
    #[verifier::external_body]
    pub fn upsert(&mut self, row: &CacheRow) -> (r: Result<(), LoaderError>)
        ensures
            r is Ok ==> final(self).table() == upsert_model(old(self).table(), row@),
            r is Err ==> final(self).table() == old(self).table(),
    {
        let res = self.conn.execute(
            "INSERT OR REPLACE INTO cache_entries \
             (key, category, value_json, source, symbol, created_at, expires_at, updated_at) \
             VALUES (?1, ?2, ?3, ?4, ?5, ?6, ?7, ?8)",
            (&row.key, &row.category, &row.value_json, &row.source, &row.symbol,
            &row.created_at, &row.expires_at, &row.updated_at),
        );
        match res {
            Ok(_) => Ok(()),
            Err(e) => Err(LoaderError::Sqlite(e.to_string())),
        }
    }

    /// Relies on rusqlite::Connection::transaction and Transaction::commit:
    /// every row of the batch is applied inside one transaction, so a
    /// reader sees either none of the batch or all of it; on any error the
    /// transaction rolls back and the table is untouched.
    #[verifier::external_body]
    pub fn upsert_batch(&mut self, rows: &Vec<CacheRow>) -> (r: Result<(), LoaderError>)
        ensures
            r is Ok ==> final(self).table() == batch_upsert_model(
                old(self).table(),
                rows_view(rows@),
            ),
            r is Err ==> final(self).table() == old(self).table(),
    {
        let tx = self.conn.transaction().map_err(|e| LoaderError::Sqlite(e.to_string()))?;
        for row in rows {
            tx.execute(
                "INSERT OR REPLACE INTO cache_entries \
                 (key, category, value_json, source, symbol, created_at, expires_at, updated_at) \
                 VALUES (?1, ?2, ?3, ?4, ?5, ?6, ?7, ?8)",
                (&row.key, &row.category, &row.value_json, &row.source, &row.symbol,
                &row.created_at, &row.expires_at, &row.updated_at),
            ).map_err(|e| LoaderError::Sqlite(e.to_string()))?;
        }
        tx.commit().map_err(|e| LoaderError::Sqlite(e.to_string()))
    }

    /// Relies on rusqlite::Connection::execute with DELETE: removes exactly
    /// the rows whose expiry is strictly before `now`, returning how many
    /// went; a failed single statement leaves the table untouched.
    #[verifier::external_body]
    pub fn expire_stale_at(&mut self, now: &str) -> (r: Result<usize, LoaderError>)
        ensures
            r matches Ok(n) ==> final(self).table() == retain_fresh(old(self).table(), now@)
                && n == stale_keys(old(self).table(), now@).len(),
            r is Err ==> final(self).table() == old(self).table(),
    {
        let res = self.conn.execute("DELETE FROM cache_entries WHERE expires_at < ?1", (now,));
        match res {
            Ok(n) => Ok(n),
            Err(e) => Err(LoaderError::Sqlite(e.to_string())),
        }
    }

    /// Deletes every row whose expiry has passed, taking "now" from the
    /// wall clock; returns how many rows went. Idempotent: an immediate
    /// second call deletes nothing.
    pub fn expire_stale(&mut self) -> (r: Result<usize, LoaderError>)
        ensures
            r matches Ok(n) ==> exists|t: Seq<char>|
                final(self).table() == retain_fresh(old(self).table(), t) && n == stale_keys(
                    old(self).table(),
                    t,
                ).len(),
            r is Err ==> final(self).table() == old(self).table(),
    {
        let now = now_rfc3339();
        let r = self.expire_stale_at(now.as_str());
        proof {
            if r is Ok {
                assert(self.table() == retain_fresh(old(self).table(), now@) && r->Ok_0
                    == stale_keys(old(self).table(), now@).len());
            }
        }
        r
    }

    /// Relies on rusqlite::Connection::query_row with SELECT COUNT(*): the
    /// number of physically present rows, with no expiry filtering.
    #[verifier::external_body]
    pub fn count(&self) -> (r: Result<usize, LoaderError>)
        ensures
            r matches Ok(n) ==> n == self.table().len(),
    {
        let res = self.conn.query_row(
            "SELECT COUNT(*) FROM cache_entries",
            [],
            |row| row.get::<usize, i64>(0),
        );
        match res {
            Ok(n) => Ok(usize::try_from(n).unwrap_or(0)),
            Err(e) => Err(LoaderError::Sqlite(e.to_string())),
        }
    }
}

/// The reading handle: expiry-aware, read-only access to the shared
/// store, usable from a different process than the writer. It tracks no
/// table of its own: the writer may commit between any two calls, so
/// every read speaks of the snapshot it ran on.
pub struct SqliteReader {
    conn: rusqlite::Connection,
}

/// A by-key select against a snapshot table: the row under the key, or
/// nothing when the snapshot has no such key.
pub open spec fn lookup_in(tab: TableModel, key: Seq<char>, opt: Option<CacheRowView>) -> bool {
    match opt {
        Some(row) => tab.dom().contains(key) && row == tab[key],
        None => !tab.dom().contains(key),
    }
}

impl SqliteReader {
    /// Relies on rusqlite::Connection::open_with_flags: opens the shared
    /// file read-only, without creating anything.
    #[verifier::external_body]
    pub fn open(path: &str) -> Result<SqliteReader, CacheError> {
        let flags = rusqlite::OpenFlags::SQLITE_OPEN_READ_ONLY
            | rusqlite::OpenFlags::SQLITE_OPEN_NO_MUTEX;
        let conn = rusqlite::Connection::open_with_flags(path, flags).map_err(
            |e| CacheError::Sqlite(e.to_string()),
        )?;
        Ok(SqliteReader { conn })
    }

    /// Relies on rusqlite::Connection::open_in_memory and execute_batch:
    /// a fresh private database holding no rows, writable so that tests
    /// can seed it through `insert`.
    #[verifier::external_body]
    pub fn open_in_memory() -> Result<SqliteReader, CacheError> {
        let conn = rusqlite::Connection::open_in_memory().map_err(
            |e| CacheError::Sqlite(e.to_string()),
        )?;
        conn.execute_batch(CACHE_TABLE_DDL).map_err(|e| CacheError::Sqlite(e.to_string()))?;
        Ok(SqliteReader { conn })
    }

    /// Relies on rusqlite::Connection::execute with INSERT OR REPLACE, as
    /// in the writer: seeds one row, for tests and pipelines that share
    /// this handle; its effect shows up in later reads' snapshots.
    #[verifier::external_body]
    pub fn insert(&mut self, row: &CacheRow) -> Result<(), CacheError> {
        let res = self.conn.execute(
            "INSERT OR REPLACE INTO cache_entries \
             (key, category, value_json, source, symbol, created_at, expires_at, updated_at) \
             VALUES (?1, ?2, ?3, ?4, ?5, ?6, ?7, ?8)",
            (&row.key, &row.category, &row.value_json, &row.source, &row.symbol,
            &row.created_at, &row.expires_at, &row.updated_at),
        );
        match res {
            Ok(_) => Ok(()),
            Err(e) => Err(CacheError::Sqlite(e.to_string())),
        }
    }

    /// Relies on rusqlite::Statement::query_row with SELECT ... WHERE
    /// key = ?1: against the snapshot the query ran on, the physically
    /// present row under that key, if any, with no expiry filtering.
    #[verifier::external_body]
    fn select_row(&self, key: &str) -> (r: Result<Option<CacheRow>, CacheError>)
        ensures
            r matches Ok(opt) ==> exists|tab: TableModel|
                #![trigger table_ok(tab)]
                table_ok(tab) && lookup_in(tab, key@, opt_row_view(opt)),
    {
        let mut stmt = self.conn.prepare_cached(
            "SELECT key, category, value_json, source, symbol, created_at, expires_at, updated_at \
             FROM cache_entries WHERE key = ?1",
        ).map_err(|e| CacheError::Sqlite(e.to_string()))?;
        let res = stmt.query_row((key,), |r| Ok(CacheRow {
            key: r.get(0)?, category: r.get(1)?, value_json: r.get(2)?, source: r.get(3)?,
            symbol: r.get(4)?, created_at: r.get(5)?, expires_at: r.get(6)?, updated_at: r.get(7)?,
        }));
        match res {
            Ok(row) => Ok(Some(row)),
            Err(rusqlite::Error::QueryReturnedNoRows) => Ok(None),
            Err(e) => Err(CacheError::Sqlite(e.to_string())),
        }
    }

    /// Relies on rusqlite::Statement::query_map with SELECT ... WHERE
    /// symbol = ?1: against the snapshot the query ran on, every
    /// physically present row tagged with that symbol, once each, in no
    /// stated order, with no expiry filtering.
    #[verifier::external_body]
    fn select_by_symbol(&self, symbol: &str) -> (r: Result<Vec<CacheRow>, CacheError>)
        ensures
            r matches Ok(v) ==> exists|tab: TableModel|
                #![trigger rows_index_table(rows_view(v@), tab, symbol_keys(tab, symbol@))]
                table_ok(tab) && rows_index_table(
                    rows_view(v@),
                    tab,
                    symbol_keys(tab, symbol@),
                ),
    {
        let mut stmt = self.conn.prepare_cached(
            "SELECT key, category, value_json, source, symbol, created_at, expires_at, updated_at \
             FROM cache_entries WHERE symbol = ?1",
        ).map_err(|e| CacheError::Sqlite(e.to_string()))?;
        let rows = stmt.query_map((symbol,), |r| Ok(CacheRow {
            key: r.get(0)?, category: r.get(1)?, value_json: r.get(2)?, source: r.get(3)?,
            symbol: r.get(4)?, created_at: r.get(5)?, expires_at: r.get(6)?, updated_at: r.get(7)?,
        })).and_then(|m| m.collect::<Result<Vec<CacheRow>, rusqlite::Error>>());
        rows.map_err(|e| CacheError::Sqlite(e.to_string()))
    }

    /// Relies on rusqlite::Statement::query_map with an unfiltered
    /// SELECT: every row of the snapshot the query ran on, once each, in
    /// no stated order.
    #[verifier::external_body]
    fn select_all(&self) -> (r: Result<Vec<CacheRow>, CacheError>)
        ensures
            r matches Ok(v) ==> exists|tab: TableModel|
                #![trigger rows_index_table(rows_view(v@), tab, tab.dom())]
                table_ok(tab) && rows_index_table(rows_view(v@), tab, tab.dom()),
    {
        let mut stmt = self.conn.prepare_cached(
            "SELECT key, category, value_json, source, symbol, created_at, expires_at, updated_at \
             FROM cache_entries",
        ).map_err(|e| CacheError::Sqlite(e.to_string()))?;
        let rows = stmt.query_map((), |r| Ok(CacheRow {
            key: r.get(0)?, category: r.get(1)?, value_json: r.get(2)?, source: r.get(3)?,
            symbol: r.get(4)?, created_at: r.get(5)?, expires_at: r.get(6)?, updated_at: r.get(7)?,
        })).and_then(|m| m.collect::<Result<Vec<CacheRow>, rusqlite::Error>>());
        rows.map_err(|e| CacheError::Sqlite(e.to_string()))
    }

    /// The row under `key` if the snapshot read holds it and it expires
    /// strictly after `now`; `None` both on a miss and on an expired row.
    pub fn get_at(&self, key: &str, now: &str) -> (r: Result<Option<CacheRow>, CacheError>)
        ensures
            r matches Ok(opt) ==> exists|tab: TableModel|
                #![trigger visible_get(tab, key@, now@)]
                table_ok(tab) && opt_row_view(opt) == visible_get(tab, key@, now@),
    {
        let sel = match self.select_row(key) {
            Ok(o) => o,
            Err(e) => {
                return Err(e);
            },
        };
        let ghost tab = choose|tab: TableModel|
            table_ok(tab) && lookup_in(tab, key@, opt_row_view(sel));
        match sel {
            None => {
                assert(opt_row_view(None::<CacheRow>) == visible_get(tab, key@, now@));
                Ok(None)
            },
            Some(row) => {
                if str_lt(now, row.expires_at.as_str()) {
                    assert(opt_row_view(Some(row)) == visible_get(tab, key@, now@));
                    Ok(Some(row))
                } else {
                    assert(opt_row_view(None::<CacheRow>) == visible_get(tab, key@, now@));
                    Ok(None)
                }
            },
        }
    }

    /// The row under `key` if the snapshot read holds it unexpired at the
    /// moment the clock is read; `None` on a miss or an expired row.
    /// Never an error for an absent key.
    pub fn get(&self, key: &str) -> (r: Result<Option<CacheRow>, CacheError>)
        ensures
            r matches Ok(opt) ==> exists|tab: TableModel, t: Seq<char>|
                #![trigger visible_get(tab, key@, t)]
                table_ok(tab) && opt_row_view(opt) == visible_get(tab, key@, t),
    {
        let now = now_rfc3339();
        let r = self.get_at(key, now.as_str());
        proof {
            if r is Ok {
                let opt = r->Ok_0;
                let tab = choose|tab: TableModel|
                    #![trigger visible_get(tab, key@, now@)]
                    table_ok(tab) && opt_row_view(opt) == visible_get(tab, key@, now@);
                assert(table_ok(tab) && opt_row_view(opt) == visible_get(tab, key@, now@));
            }
        }
        r
    }

    /// Every row of the snapshot read that is tagged with `symbol` and
    /// expires strictly after `now`, once each, in no stated order.
    #[verifier::rlimit(60)]
    pub fn get_by_symbol_at(&self, symbol: &str, now: &str) -> (r: Result<
        Vec<CacheRow>,
        CacheError,
    >)
        ensures
            r matches Ok(v) ==> exists|tab: TableModel|
                #![trigger rows_index_table(rows_view(v@), tab, visible_symbol_keys(tab, symbol@, now@))]
                table_ok(tab) && rows_index_table(
                    rows_view(v@),
                    tab,
                    visible_symbol_keys(tab, symbol@, now@),
                ),
    {
        let all = match self.select_by_symbol(symbol) {
            Ok(v) => v,
            Err(e) => {
                return Err(e);
            },
        };
        let ghost tab = choose|tab: TableModel|
            #![trigger rows_index_table(rows_view(all@), tab, symbol_keys(tab, symbol@))]
            table_ok(tab) && rows_index_table(rows_view(all@), tab, symbol_keys(tab, symbol@));
        let mut out: Vec<CacheRow> = Vec::new();
        let ghost want = visible_symbol_keys(tab, symbol@, now@);
        let mut i: usize = 0;
        while i < all.len()
            invariant
                i <= all@.len(),
                rows_index_table(rows_view(all@), tab, symbol_keys(tab, symbol@)),
                want == visible_symbol_keys(tab, symbol@, now@),
                forall|m: int|
                    0 <= m < out@.len() ==> want.contains((#[trigger] out@[m]@).key) && out@[m]@
                        == tab[out@[m]@.key],
                forall|m: int|
                    0 <= m < out@.len() ==> exists|j: int|
                        0 <= j < i && (#[trigger] out@[m]@).key == rows_view(all@)[j].key,
                forall|m1: int, m2: int|
                    0 <= m1 < out@.len() && 0 <= m2 < out@.len() && m1 != m2 ==> (
                    #[trigger] out@[m1]@).key != (#[trigger] out@[m2]@).key,
                forall|j: int|
                    0 <= j < i && want.contains((#[trigger] rows_view(all@)[j]).key) ==> exists|
                        m: int,
                    | 0 <= m < out@.len() && (#[trigger] out@[m]@).key == rows_view(all@)[j].key,
            decreases all@.len() - i,
        {
            let row = &all[i];
            assert(rows_view(all@)[i as int] == all@[i as int]@);
            let ghost k = all@[i as int]@.key;
            let ghost prev = out@;
            if str_lt(now, row.expires_at.as_str()) {
                assert(want.contains(k));
                out.push(row.duplicate());
                assert(out@[prev.len() as int]@.key == k);
                assert(forall|m: int| 0 <= m < prev.len() ==> out@[m] == prev[m]);
            } else {
                assert(!want.contains(k));
            }
            proof {
                assert forall|j: int|
                    0 <= j < i + 1 && want.contains(
                        (#[trigger] rows_view(all@)[j]).key,
                    ) implies exists|m: int|
                    0 <= m < out@.len() && (#[trigger] out@[m]@).key == rows_view(all@)[j].key by {
                    if j < i {
                        let m0 = choose|m: int|
                            0 <= m < prev.len() && (#[trigger] prev[m]@).key == rows_view(
                                all@,
                            )[j].key;
                        assert(out@[m0]@.key == rows_view(all@)[j].key);
                    } else {
                        assert(out@[prev.len() as int]@.key == rows_view(all@)[j].key);
                    }
                }
            }
            i = i + 1;
        }
        proof {
            assert(forall|m: int| 0 <= m < out@.len() ==> rows_view(out@)[m] == out@[m]@);
            assert forall|k: Seq<char>| #[trigger] want.contains(k) implies exists|m: int|
                0 <= m < rows_view(out@).len() && (#[trigger] rows_view(out@)[m]).key == k by {
                assert(symbol_keys(tab, symbol@).contains(k));
                let j = choose|j: int|
                    0 <= j < rows_view(all@).len() && (#[trigger] rows_view(all@)[j]).key == k;
                assert(want.contains(rows_view(all@)[j].key));
                let m0 = choose|m: int|
                    0 <= m < out@.len() && (#[trigger] out@[m]@).key == k;
                assert(rows_view(out@)[m0].key == k);
            }
        }
        let r: Result<Vec<CacheRow>, CacheError> = Ok(out);
        proof {
            let v = r->Ok_0;
            assert(table_ok(tab) && rows_index_table(
                rows_view(v@),
                tab,
                visible_symbol_keys(tab, symbol@, now@),
            ));
        }
        r
    }

    /// Every row of the snapshot read that is tagged with `symbol` and
    /// unexpired at the moment the clock is read, once each, in no stated
    /// order.
    pub fn get_by_symbol(&self, symbol: &str) -> (r: Result<Vec<CacheRow>, CacheError>)
        ensures
            r matches Ok(v) ==> exists|tab: TableModel, t: Seq<char>|
                #![trigger rows_index_table(rows_view(v@), tab, visible_symbol_keys(tab, symbol@, t))]
                table_ok(tab) && rows_index_table(
                    rows_view(v@),
                    tab,
                    visible_symbol_keys(tab, symbol@, t),
                ),
    {
        let now = now_rfc3339();
        let r = self.get_by_symbol_at(symbol, now.as_str());
        proof {
            if r is Ok {
                let v = r->Ok_0;
                let tab = choose|tab: TableModel|
                    #![trigger rows_index_table(rows_view(v@), tab, visible_symbol_keys(tab, symbol@, now@))]
                    table_ok(tab) && rows_index_table(
                        rows_view(v@),
                        tab,
                        visible_symbol_keys(tab, symbol@, now@),
                    );
                assert(table_ok(tab) && rows_index_table(
                    rows_view(v@),
                    tab,
                    visible_symbol_keys(tab, symbol@, now@),
                ));
            }
        }
        r
    }

    /// Every row of the snapshot read whose key starts with `prefix` and
    /// which expires strictly after `now`, once each, in no stated order.
    #[verifier::rlimit(60)]
    pub fn get_by_prefix_at(&self, prefix: &str, now: &str) -> (r: Result<
        Vec<CacheRow>,
        CacheError,
    >)
        ensures
            r matches Ok(v) ==> exists|tab: TableModel|
                #![trigger rows_index_table(rows_view(v@), tab, visible_prefix_keys(tab, prefix@, now@))]
                table_ok(tab) && rows_index_table(
                    rows_view(v@),
                    tab,
                    visible_prefix_keys(tab, prefix@, now@),
                ),
    {
        let all = match self.select_all() {
            Ok(v) => v,
            Err(e) => {
                return Err(e);
            },
        };
        let ghost tab = choose|tab: TableModel|
            #![trigger rows_index_table(rows_view(all@), tab, tab.dom())]
            table_ok(tab) && rows_index_table(rows_view(all@), tab, tab.dom());
        let mut out: Vec<CacheRow> = Vec::new();
        let ghost want = visible_prefix_keys(tab, prefix@, now@);
        let mut i: usize = 0;
        while i < all.len()
            invariant
                i <= all@.len(),
                rows_index_table(rows_view(all@), tab, tab.dom()),
                want == visible_prefix_keys(tab, prefix@, now@),
                forall|m: int|
                    0 <= m < out@.len() ==> want.contains((#[trigger] out@[m]@).key) && out@[m]@
                        == tab[out@[m]@.key],
                forall|m: int|
                    0 <= m < out@.len() ==> exists|j: int|
                        0 <= j < i && (#[trigger] out@[m]@).key == rows_view(all@)[j].key,
                forall|m1: int, m2: int|
                    0 <= m1 < out@.len() && 0 <= m2 < out@.len() && m1 != m2 ==> (
                    #[trigger] out@[m1]@).key != (#[trigger] out@[m2]@).key,
                forall|j: int|
                    0 <= j < i && want.contains((#[trigger] rows_view(all@)[j]).key) ==> exists|
                        m: int,
                    | 0 <= m < out@.len() && (#[trigger] out@[m]@).key == rows_view(all@)[j].key,
            decreases all@.len() - i,
        {
            let row = &all[i];
            assert(rows_view(all@)[i as int] == all@[i as int]@);
            let ghost k = all@[i as int]@.key;
            let ghost prev = out@;
            if str_starts_with(row.key.as_str(), prefix) && str_lt(
                now,
                row.expires_at.as_str(),
            ) {
                assert(want.contains(k));
                out.push(row.duplicate());
                assert(out@[prev.len() as int]@.key == k);
                assert(forall|m: int| 0 <= m < prev.len() ==> out@[m] == prev[m]);
            } else {
                assert(!want.contains(k));
            }
            proof {
                assert forall|j: int|
                    0 <= j < i + 1 && want.contains(
                        (#[trigger] rows_view(all@)[j]).key,
                    ) implies exists|m: int|
                    0 <= m < out@.len() && (#[trigger] out@[m]@).key == rows_view(all@)[j].key by {
                    if j < i {
                        let m0 = choose|m: int|
                            0 <= m < prev.len() && (#[trigger] prev[m]@).key == rows_view(
                                all@,
                            )[j].key;
                        assert(out@[m0]@.key == rows_view(all@)[j].key);
                    } else {
                        assert(out@[prev.len() as int]@.key == rows_view(all@)[j].key);
                    }
                }
            }
            i = i + 1;
        }
        proof {
            assert(forall|m: int| 0 <= m < out@.len() ==> rows_view(out@)[m] == out@[m]@);
            assert forall|k: Seq<char>| #[trigger] want.contains(k) implies exists|m: int|
                0 <= m < rows_view(out@).len() && (#[trigger] rows_view(out@)[m]).key == k by {
                assert(tab.dom().contains(k));
                let j = choose|j: int|
                    0 <= j < rows_view(all@).len() && (#[trigger] rows_view(all@)[j]).key == k;
                assert(want.contains(rows_view(all@)[j].key));
                let m0 = choose|m: int|
                    0 <= m < out@.len() && (#[trigger] out@[m]@).key == k;
                assert(rows_view(out@)[m0].key == k);
            }
        }
        let r: Result<Vec<CacheRow>, CacheError> = Ok(out);
        proof {
            let v = r->Ok_0;
            assert(table_ok(tab) && rows_index_table(
                rows_view(v@),
                tab,
                visible_prefix_keys(tab, prefix@, now@),
            ));
        }
        r
    }

    /// Every row of the snapshot read whose key starts with `prefix`,
    /// unexpired at the moment the clock is read, once each, in no stated
    /// order.
    pub fn get_by_prefix(&self, prefix: &str) -> (r: Result<Vec<CacheRow>, CacheError>)
        ensures
            r matches Ok(v) ==> exists|tab: TableModel, t: Seq<char>|
                #![trigger rows_index_table(rows_view(v@), tab, visible_prefix_keys(tab, prefix@, t))]
                table_ok(tab) && rows_index_table(
                    rows_view(v@),
                    tab,
                    visible_prefix_keys(tab, prefix@, t),
                ),
    {
        let now = now_rfc3339();
        let r = self.get_by_prefix_at(prefix, now.as_str());
        proof {
            if r is Ok {
                let v = r->Ok_0;
                let tab = choose|tab: TableModel|
                    #![trigger rows_index_table(rows_view(v@), tab, visible_prefix_keys(tab, prefix@, now@))]
                    table_ok(tab) && rows_index_table(
                        rows_view(v@),
                        tab,
                        visible_prefix_keys(tab, prefix@, now@),
                    );
                assert(table_ok(tab) && rows_index_table(
                    rows_view(v@),
                    tab,
                    visible_prefix_keys(tab, prefix@, now@),
                ));
            }
        }
        r
    }
}

} // verus!
