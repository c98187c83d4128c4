//! The logical contents of the persistent store, and the laws the store's
//! operations obey.
//!
//! A store is modelled as a finite map from key to row. A row is visible to
//! a read at time `t` exactly when its expiry is strictly later than `t`;
//! reclamation deletes exactly the rows whose expiry is strictly earlier.

use vstd::prelude::*;

use crate::schema::CacheRowView;
use crate::text::{is_prefix_of, lex_lt};

verus! {

/// The logical table: every physically present row, keyed by its key.
pub type TableModel = Map<Seq<char>, CacheRowView>;

/// The table of a store holding no rows at all.
pub open spec fn empty_table() -> TableModel {
    Map::empty()
}

/// A well-formed table is finite and keys each row by its own key column.
pub open spec fn table_ok(tab: TableModel) -> bool {
    &&& tab.dom().finite()
    &&& forall|k: Seq<char>| tab.dom().contains(k) ==> (#[trigger] tab[k]).key == k
}

/// A row is visible to a read at `t` iff it expires strictly after `t`.
pub open spec fn row_visible_at(row: CacheRowView, t: Seq<char>) -> bool {
    lex_lt(t, row.expires_at)
}

/// What a read by key at time `t` returns.
pub open spec fn visible_get(tab: TableModel, key: Seq<char>, t: Seq<char>) -> Option<
    CacheRowView,
> {
    if tab.dom().contains(key) && row_visible_at(tab[key], t) {
        Some(tab[key])
    } else {
        None
    }
}

/// Insert-or-replace of one row.
pub open spec fn upsert_model(tab: TableModel, row: CacheRowView) -> TableModel {
    tab.insert(row.key, row)
}

/// A batch of upserts applied first to last.
pub open spec fn batch_upsert_model(tab: TableModel, rows: Seq<CacheRowView>) -> TableModel
    decreases rows.len(),
{
    if rows.len() == 0 {
        tab
    } else {
        batch_upsert_model(upsert_model(tab, rows[0]), rows.drop_first())
    }
}

/// The keys whose rows have expired strictly before `t`: what reclamation deletes.
pub open spec fn stale_keys(tab: TableModel, t: Seq<char>) -> Set<Seq<char>> {
    tab.dom().filter(|k: Seq<char>| lex_lt(tab[k].expires_at, t))
}

/// The table after reclamation at `t`: exactly the rows not stale at `t`.
pub open spec fn retain_fresh(tab: TableModel, t: Seq<char>) -> TableModel {
    tab.restrict(tab.dom().filter(|k: Seq<char>| !lex_lt(tab[k].expires_at, t)))
}

/// Keys of all physically present rows tagged with `sym`, expired or not.
pub open spec fn symbol_keys(tab: TableModel, sym: Seq<char>) -> Set<Seq<char>> {
    tab.dom().filter(|k: Seq<char>| tab[k].symbol == Some(sym))
}

/// Keys of rows tagged with `sym` and visible at `t`.
pub open spec fn visible_symbol_keys(tab: TableModel, sym: Seq<char>, t: Seq<char>) -> Set<
    Seq<char>,
> {
    tab.dom().filter(
        |k: Seq<char>| tab[k].symbol == Some(sym) && row_visible_at(tab[k], t),
    )
}

/// Keys starting with `prefix` whose rows are visible at `t`.
pub open spec fn visible_prefix_keys(tab: TableModel, prefix: Seq<char>, t: Seq<char>) -> Set<
    Seq<char>,
> {
    tab.dom().filter(
        |k: Seq<char>| is_prefix_of(prefix, k) && row_visible_at(tab[k], t),
    )
}

/// A result sequence lists, once each and unchanged, exactly the rows of
/// `tab` whose keys form `keys`; the order is left open.
pub open spec fn rows_index_table(
    rs: Seq<CacheRowView>,
    tab: TableModel,
    keys: Set<Seq<char>>,
) -> bool {
    &&& forall|i: int|
        0 <= i < rs.len() ==> keys.contains((#[trigger] rs[i]).key) && rs[i] == tab[rs[i].key]
    &&& forall|i: int, j: int|
        0 <= i < rs.len() && 0 <= j < rs.len() && i != j ==> (#[trigger] rs[i]).key != (
        #[trigger] rs[j]).key
    &&& forall|k: Seq<char>|
        #[trigger] keys.contains(k) ==> exists|i: int|
            0 <= i < rs.len() && (#[trigger] rs[i]).key == k
}

/// A row written with an expiry strictly later than `t` is returned, intact,
/// by a read of its key at `t`.
pub proof fn lemma_fresh_write_read_back(tab: TableModel, row: CacheRowView, t: Seq<char>)
    requires
        lex_lt(t, row.expires_at),
    ensures
        visible_get(upsert_model(tab, row), row.key, t) == Some(row),
{
}

/// A read never returns a row whose expiry is at or before the read time.
pub proof fn lemma_reads_exclude_expired(tab: TableModel, key: Seq<char>, t: Seq<char>)
    ensures
        visible_get(tab, key, t) matches Some(row) ==> lex_lt(t, row.expires_at),
        !lex_lt(t, tab[key].expires_at) ==> visible_get(tab, key, t) is None,
{
}

/// Upserting a key already present leaves the row count unchanged, and a
/// read then sees the new row, never the old one.
pub proof fn lemma_upsert_existing(tab: TableModel, row: CacheRowView, t: Seq<char>)
    requires
        table_ok(tab),
        tab.dom().contains(row.key),
    ensures
        upsert_model(tab, row).len() == tab.len(),
        row_visible_at(row, t) ==> visible_get(upsert_model(tab, row), row.key, t) == Some(row),
{
    assert(tab.dom().insert(row.key) =~= tab.dom());
}

/// Upserting a key not yet present grows the row count by exactly one.
pub proof fn lemma_upsert_new(tab: TableModel, row: CacheRowView)
    requires
        table_ok(tab),
        !tab.dom().contains(row.key),
    ensures
        upsert_model(tab, row).len() == tab.len() + 1,
{
}

/// A committed batch leaves every one of its rows present, when the batch
/// carries no duplicate keys; keys outside the batch keep their old rows.
pub proof fn lemma_batch_upsert_complete(tab: TableModel, rows: Seq<CacheRowView>)
    requires
        forall|i: int, j: int|
            0 <= i < rows.len() && 0 <= j < rows.len() && i != j ==> (#[trigger] rows[i]).key != (
            #[trigger] rows[j]).key,
    ensures
        forall|i: int|
            0 <= i < rows.len() ==> batch_upsert_model(tab, rows).dom().contains(
                (#[trigger] rows[i]).key,
            ) && batch_upsert_model(tab, rows)[rows[i].key] == rows[i],
        forall|k: Seq<char>|
            (forall|i: int| 0 <= i < rows.len() ==> (#[trigger] rows[i]).key != k) ==> (
            #[trigger] batch_upsert_model(tab, rows).dom().contains(k)) == tab.dom().contains(k)
                && (tab.dom().contains(k) ==> batch_upsert_model(tab, rows)[k] == tab[k]),
    decreases rows.len(),
{
    if rows.len() > 0 {
        let rest = rows.drop_first();
        let head = rows[0];
        assert forall|i: int, j: int|
            0 <= i < rest.len() && 0 <= j < rest.len() && i != j implies (#[trigger] rest[i]).key
            != (#[trigger] rest[j]).key by {
            assert(rest[i] == rows[i + 1]);
            assert(rest[j] == rows[j + 1]);
        }
        lemma_batch_upsert_complete(upsert_model(tab, head), rest);
        assert(batch_upsert_model(tab, rows) == batch_upsert_model(upsert_model(tab, head), rest));
        assert forall|i: int|
            0 <= i < rows.len() implies batch_upsert_model(tab, rows).dom().contains(
            (#[trigger] rows[i]).key,
        ) && batch_upsert_model(tab, rows)[rows[i].key] == rows[i] by {
            if i > 0 {
                assert(rest[i - 1] == rows[i]);
            } else {
                assert forall|j: int|
                    0 <= j < rest.len() implies (#[trigger] rest[j]).key != head.key by {
                    assert(rest[j] == rows[j + 1]);
                }
                assert(upsert_model(tab, head).dom().contains(head.key));
                assert(upsert_model(tab, head)[head.key] == head);
            }
        }
        assert forall|k: Seq<char>|
            (forall|i: int|
                0 <= i < rows.len() ==> (#[trigger] rows[i]).key != k) implies (
        #[trigger] batch_upsert_model(tab, rows).dom().contains(k)) == tab.dom().contains(k) && (
        tab.dom().contains(k) ==> batch_upsert_model(tab, rows)[k] == tab[k]) by {
            assert(rows[0].key != k);
            assert forall|j: int| 0 <= j < rest.len() implies (#[trigger] rest[j]).key != k by {
                assert(rest[j] == rows[j + 1]);
            }
            assert(upsert_model(tab, head).dom().contains(k) == tab.dom().contains(k));
        }
    }
}

/// Reclamation at `t` keeps exactly the rows not stale at `t`, unchanged,
/// and removes exactly the stale ones; the removed count is the count of
/// stale keys.
pub proof fn lemma_expire_exact(tab: TableModel, t: Seq<char>)
    requires
        table_ok(tab),
    ensures
        table_ok(retain_fresh(tab, t)),
        forall|k: Seq<char>|
            #[trigger] retain_fresh(tab, t).dom().contains(k) <==> (tab.dom().contains(k)
                && !lex_lt(tab[k].expires_at, t)),
        forall|k: Seq<char>|
            retain_fresh(tab, t).dom().contains(k) ==> #[trigger] retain_fresh(tab, t)[k]
                == tab[k],
        retain_fresh(tab, t).len() + stale_keys(tab, t).len() == tab.len(),
{
    let fresh = tab.dom().filter(|k: Seq<char>| !lex_lt(tab[k].expires_at, t));
    let stale = stale_keys(tab, t);
    tab.dom().lemma_len_filter(|k: Seq<char>| !lex_lt(tab[k].expires_at, t));
    tab.dom().lemma_len_filter(|k: Seq<char>| lex_lt(tab[k].expires_at, t));
    assert(retain_fresh(tab, t).dom() =~= fresh);
    assert(fresh + stale =~= tab.dom());
    assert(fresh.disjoint(stale));
    vstd::set_lib::lemma_set_disjoint_lens(fresh, stale);
    assert(retain_fresh(tab, t).len() == fresh.len());
}

/// Upserting a row keeps the table well formed.
pub proof fn lemma_upsert_preserves_ok(tab: TableModel, row: CacheRowView)
    requires
        table_ok(tab),
    ensures
        table_ok(upsert_model(tab, row)),
{
}

/// A batch of upserts keeps the table well formed.
pub proof fn lemma_batch_preserves_ok(tab: TableModel, rows: Seq<CacheRowView>)
    requires
        table_ok(tab),
    ensures
        table_ok(batch_upsert_model(tab, rows)),
    decreases rows.len(),
{
    if rows.len() > 0 {
        lemma_upsert_preserves_ok(tab, rows[0]);
        lemma_batch_preserves_ok(upsert_model(tab, rows[0]), rows.drop_first());
    }
}

/// Reclamation is idempotent: running it again at the same time deletes
/// nothing.
pub proof fn lemma_expire_idempotent(tab: TableModel, t: Seq<char>)
    requires
        table_ok(tab),
    ensures
        retain_fresh(retain_fresh(tab, t), t) == retain_fresh(tab, t),
        stale_keys(retain_fresh(tab, t), t).len() == 0,
{
    lemma_expire_exact(tab, t);
    let once = retain_fresh(tab, t);
    assert(stale_keys(once, t) =~= Set::<Seq<char>>::empty());
    assert(retain_fresh(once, t) =~= once);
}

} // verus!
