//! Laws that relate the store's operations, stated and proved over the
//! store's view: the map from record identifier to the three text fields
//! that every operation's contract speaks of.

use vstd::prelude::*;
use crate::FieldsView;
use crate::Specfile;
use crate::search;
use crate::store::rows_are_matches;
use crate::store::rows_are_records;

verus! {

/// Creating a record and then reading it back: `create` on a store with view
/// `m` returns a fresh identifier `id` and leaves the view
/// `m.insert(id, rec)`, against which a `read(id)` finds exactly the created
/// fields.
pub proof fn lemma_create_then_read(m: Map<i64, FieldsView>, id: i64, rec: FieldsView)
    requires
        !m.contains_key(id),
    ensures
        m.insert(id, rec).contains_key(id),
        m.insert(id, rec)[id] == rec,
{
}

/// After a delete: `delete(id)` leaves the view `m.remove(id)`, against
/// which a `read(id)` finds nothing, and no row of a listing of that view
/// carries the identifier.
pub proof fn lemma_delete_then_absent(m: Map<i64, FieldsView>, id: i64, rows: Seq<Specfile>)
    requires
        rows_are_records(m.remove(id), rows),
    ensures
        !m.remove(id).contains_key(id),
        forall|j: int| 0 <= j < rows.len() ==> (#[trigger] rows[j]).id != Some(id),
{
    assert forall|j: int| 0 <= j < rows.len() implies (#[trigger] rows[j]).id != Some(id) by {
        assert(rows[j].id matches Some(k) && m.remove(id).contains_key(k));
    }
}

/// An update preserves the identifier and replaces exactly the three text
/// fields: `update(id, rec)` on a view `m` that holds the identifier leaves
/// the view `m.insert(id, rec)`, which has the same identifiers as `m`,
/// holds exactly the new fields under `id`, and every other record
/// unchanged.
pub proof fn lemma_update_then_read(m: Map<i64, FieldsView>, id: i64, rec: FieldsView)
    requires
        m.contains_key(id),
    ensures
        m.insert(id, rec).dom() == m.dom(),
        m.insert(id, rec)[id] == rec,
        forall|k: i64| #[trigger] m.contains_key(k) && k != id ==> m.insert(id, rec)[k] == m[k],
{
    assert(m.insert(id, rec).dom() =~= m.dom());
}

/// A search returns exactly the matching records: rows that satisfy the
/// search contract hold an identifier `k` if and only if the view holds a
/// record under `k` whose fields the query matches.
pub proof fn lemma_search_exact(
    m: Map<i64, FieldsView>,
    q: Seq<char>,
    rows: Seq<Specfile>,
    k: i64,
)
    requires
        rows_are_matches(m, q, rows),
    ensures
        (exists|j: int| 0 <= j < rows.len() && (#[trigger] rows[j]).id == Some(k))
            <==> (m.contains_key(k) && search::matches_query(m[k], q)),
{
    if exists|j: int| 0 <= j < rows.len() && (#[trigger] rows[j]).id == Some(k) {
        let j = choose|j: int| 0 <= j < rows.len() && (#[trigger] rows[j]).id == Some(k);
        assert(rows[j].id matches Some(kk) && m.contains_key(kk) && search::matches_query(m[kk], q));
    }
}

/// The empty query matches every record, so rows satisfy the search contract
/// for the empty query exactly when they satisfy the listing contract:
/// `search("")` and `list()` describe the same result.
pub proof fn lemma_empty_query_lists_all(m: Map<i64, FieldsView>, rows: Seq<Specfile>)
    ensures
        rows_are_matches(m, Seq::<char>::empty(), rows) <==> rows_are_records(m, rows),
{
    assert forall|rec: FieldsView| #[trigger] search::matches_query(rec, Seq::<char>::empty()) by {
        search::lemma_empty_needle(rec.0);
    }
}

} // verus!
