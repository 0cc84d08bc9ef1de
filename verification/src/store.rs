//! The specfile store: CRUD and search over the records of one database
//! file, stated against the store's view, a map from record identifier to
//! the three text fields.

use vstd::prelude::*;
use crate::db;
use crate::search;
use crate::FieldsView;
use crate::SpecError;
use crate::Specfile;
use crate::fields_of;

verus! {

/// The store: owns the connection to one database file and exposes the
/// operations over it. Its view (`self@`) is the map of persisted records.
pub struct SpecBase {
    conn: rusqlite::Connection,
}

impl View for SpecBase {
    type V = Map<i64, FieldsView>;

    closed spec fn view(&self) -> Map<i64, FieldsView> {
        db::db_records(self.conn)
    }
}

/// The rows `rows` are exactly the records of `m`: each row carries a key of
/// `m` with that key's fields, every key of `m` appears, and no key appears
/// twice. The order of the rows is left open.
pub open spec fn rows_are_records(m: Map<i64, FieldsView>, rows: Seq<Specfile>) -> bool {
    &&& forall|j: int| #![trigger rows[j]] 0 <= j < rows.len()
            ==> (rows[j].id matches Some(k) && m.contains_key(k) && fields_of(rows[j]) == m[k])
    &&& forall|k: i64| #[trigger] m.contains_key(k)
            ==> exists|j: int| 0 <= j < rows.len() && (#[trigger] rows[j]).id == Some(k)
    &&& forall|j1: int, j2: int| #![trigger rows[j1], rows[j2]] 0 <= j1 < j2 < rows.len()
            ==> rows[j1].id != rows[j2].id
}

/// The rows `rows` are exactly the records of `m` that the query `q`
/// matches: each row carries a key of `m` whose fields `q` matches, with
/// those fields, every matched key of `m` appears, and no key appears twice.
/// The order of the rows is left open.
pub open spec fn rows_are_matches(m: Map<i64, FieldsView>, q: Seq<char>, rows: Seq<Specfile>) -> bool {
    &&& forall|j: int| #![trigger rows[j]] 0 <= j < rows.len()
            ==> (rows[j].id matches Some(k) && m.contains_key(k) && fields_of(rows[j]) == m[k]
                && search::matches_query(m[k], q))
    &&& forall|k: i64| #[trigger] m.contains_key(k) && search::matches_query(m[k], q)
            ==> exists|j: int| 0 <= j < rows.len() && (#[trigger] rows[j]).id == Some(k)
    &&& forall|j1: int, j2: int| #![trigger rows[j1], rows[j2]] 0 <= j1 < j2 < rows.len()
            ==> rows[j1].id != rows[j2].id
}

impl SpecBase {
    /// Opens (creating it where it is missing) the database file at
    /// `db_path` and makes sure the `specfiles` table exists; existing
    /// records are kept as they are, so initializing twice against the same
    /// location is harmless. The caller resolves and creates the directory
    /// that holds the file.
    pub fn init(db_path: &str) -> (r: Result<SpecBase, SpecError>)
        ensures
            r matches Err(e) ==> e is DatabaseError,
    {
        let mut conn = match db::open_connection(db_path) {
            Ok(c) => c,
            Err(e) => return Err(SpecError::DatabaseError(e)),
        };
        match db::create_table(&mut conn) {
            Ok(()) => Ok(SpecBase { conn }),
            Err(e) => Err(SpecError::DatabaseError(e)),
        }
    }

    /// Inserts a new record with the three text fields of `specfile` (any
    /// identifier the caller put in it is ignored) and returns the assigned
    /// identifier, which no existing record had.
    pub fn create_specfile(&mut self, specfile: &Specfile) -> (r: Result<i64, SpecError>)
        ensures
            r matches Ok(id) ==> !old(self)@.contains_key(id)
                && final(self)@ == old(self)@.insert(id, fields_of(*specfile)),
            r matches Err(e) ==> final(self)@ == old(self)@ && e is DatabaseError,
    {
        let inserted = db::insert_row(
            &mut self.conn,
            specfile.name.as_str(),
            specfile.description.as_str(),
            specfile.content.as_str(),
        );
        match inserted {
            Ok(id) => Ok(id),
            Err(e) => Err(SpecError::DatabaseError(e)),
        }
    }

    /// Returns the record with the given identifier, its fields exactly as
    /// stored; fails with `SpecfileNotFound(id)` when no record has it.
    pub fn read_specfile(&self, id: i64) -> (r: Result<Specfile, SpecError>)
        ensures
            r matches Ok(f) ==> self@.contains_key(id) && f.id == Some(id)
                && fields_of(f) == self@[id],
            r matches Err(SpecError::SpecfileNotFound(j)) ==> j == id
                && !self@.contains_key(id),
            !(r matches Err(SpecError::ConfigDirError)),
            !self@.contains_key(id) ==> !(r is Ok),
    {
        match db::select_row(&self.conn, id) {
            Ok(Some(row)) => Ok(
                Specfile { id: Some(row.0), name: row.1, description: row.2, content: row.3 },
            ),
            Ok(None) => Err(SpecError::SpecfileNotFound(id)),
            Err(e) => Err(SpecError::DatabaseError(e)),
        }
    }

    /// Replaces all three text fields of the record with the given
    /// identifier (the identifier itself is unchanged, and any identifier in
    /// `specfile` is ignored); fails with `SpecfileNotFound(id)`, changing
    /// nothing, when no record has it.
    pub fn update_specfile(&mut self, id: i64, specfile: &Specfile) -> (r: Result<
        (),
        SpecError,
    >)
        ensures
            r is Ok ==> old(self)@.contains_key(id)
                && final(self)@ == old(self)@.insert(id, fields_of(*specfile)),
            r is Err ==> final(self)@ == old(self)@,
            r matches Err(SpecError::SpecfileNotFound(j)) ==> j == id
                && !old(self)@.contains_key(id),
            !(r matches Err(SpecError::ConfigDirError)),
            !old(self)@.contains_key(id) ==> !(r is Ok),
    {
        let updated = db::update_row(
            &mut self.conn,
            id,
            specfile.name.as_str(),
            specfile.description.as_str(),
            specfile.content.as_str(),
        );
        match updated {
            Ok(n) => if n == 0 {
                Err(SpecError::SpecfileNotFound(id))
            } else {
                Ok(())
            },
            Err(e) => Err(SpecError::DatabaseError(e)),
        }
    }

    /// Removes the record with the given identifier; fails with
    /// `SpecfileNotFound(id)`, changing nothing, when no record has it.
    pub fn delete_specfile(&mut self, id: i64) -> (r: Result<(), SpecError>)
        ensures
            r is Ok ==> old(self)@.contains_key(id)
                && final(self)@ == old(self)@.remove(id),
            r is Err ==> final(self)@ == old(self)@,
            r matches Err(SpecError::SpecfileNotFound(j)) ==> j == id
                && !old(self)@.contains_key(id),
            !(r matches Err(SpecError::ConfigDirError)),
            !old(self)@.contains_key(id) ==> !(r is Ok),
    {
        match db::delete_row(&mut self.conn, id) {
            Ok(n) => if n == 0 {
                Err(SpecError::SpecfileNotFound(id))
            } else {
                Ok(())
            },
            Err(e) => Err(SpecError::DatabaseError(e)),
        }
    }

    /// Returns every record, each exactly once, in an order the storage
    /// engine chooses (callers must not depend on it).
    pub fn list_specfiles(&self) -> (r: Result<Vec<Specfile>, SpecError>)
        ensures
            r matches Ok(v) ==> rows_are_records(self@, v@),
            r matches Err(e) ==> e is DatabaseError,
    {
        let rows = match db::select_all(&self.conn) {
            Ok(v) => v,
            Err(e) => return Err(SpecError::DatabaseError(e)),
        };
        let n = rows.len();
        let mut out: Vec<Specfile> = Vec::new();
        let mut idx: usize = 0;
        while idx < n
            invariant
                n == rows@.len(),
                idx <= n,
                out@.len() == idx,
                db::raw_rows_ok(self@, rows@),
                forall|j: int| #![trigger out@[j]] 0 <= j < idx
                    ==> out@[j].id == Some(rows@[j].0) && fields_of(out@[j])
                        == (rows@[j].1@, rows@[j].2@, rows@[j].3@),
            decreases n - idx,
        {
            let row = &rows[idx];
            out.push(
                Specfile {
                    id: Some(row.0),
                    name: row.1.clone(),
                    description: row.2.clone(),
                    content: row.3.clone(),
                },
            );
            idx += 1;
        }
        proof {
            assert forall|k: i64| #[trigger] self@.contains_key(k)
                implies exists|j: int| 0 <= j < out@.len() && (#[trigger] out@[j]).id == Some(k)
            by {
                let j = choose|j: int| 0 <= j < rows@.len() && (#[trigger] rows@[j]).0 == k;
                assert(out@[j].id == Some(k));
            }
        }
        Ok(out)
    }

    /// Returns every record where `query` occurs as a case-insensitive
    /// substring of the name, the description or the content, each exactly
    /// once, in an order the storage engine chooses. An empty query matches
    /// every record.
    #[verifier::rlimit(50)]
    pub fn query_specfiles(&self, query: &str) -> (r: Result<Vec<Specfile>, SpecError>)
        ensures
            r matches Ok(v) ==> rows_are_matches(self@, query@, v@),
            r matches Err(e) ==> e is DatabaseError,
    {
        let rows = match db::select_all(&self.conn) {
            Ok(v) => v,
            Err(e) => return Err(SpecError::DatabaseError(e)),
        };
        let n = rows.len();
        let mut out: Vec<Specfile> = Vec::new();
        let mut idx: usize = 0;
        while idx < n
            invariant
                n == rows@.len(),
                idx <= n,
                db::raw_rows_ok(self@, rows@),
                forall|j: int| #![trigger out@[j]] 0 <= j < out@.len()
                    ==> (out@[j].id matches Some(k) && self@.contains_key(k)
                        && fields_of(out@[j]) == self@[k]
                        && search::matches_query(self@[k], query@)),
                forall|t: int| #![trigger rows@[t]] 0 <= t < idx
                    && search::matches_query(self@[rows@[t].0], query@)
                    ==> exists|j: int| 0 <= j < out@.len() && (#[trigger] out@[j]).id
                        == Some(rows@[t].0),
                forall|j: int| #![trigger out@[j]] 0 <= j < out@.len()
                    ==> exists|t: int| 0 <= t < idx && (#[trigger] rows@[t]).0 == out@[j].id->0,
                forall|j1: int, j2: int| #![trigger out@[j1], out@[j2]] 0 <= j1 < j2 < out@.len()
                    ==> out@[j1].id != out@[j2].id,
            decreases n - idx,
        {
            let row = &rows[idx];
            let ghost key = rows@[idx as int].0;
            proof {
                assert(self@.contains_key(key));
                assert(self@[key] == (rows@[idx as int].1@, rows@[idx as int].2@, rows@[idx as int].3@));
            }
            let matched = search::contains_ci(row.1.as_str(), query)
                || search::contains_ci(row.2.as_str(), query)
                || search::contains_ci(row.3.as_str(), query);
            proof {
                assert(matched == search::matches_query(self@[key], query@));
            }
            let ghost out0 = out@;
            if matched {
                proof {
                    assert forall|j: int| 0 <= j < out@.len()
                        implies (#[trigger] out@[j]).id != Some(key)
                    by {
                        let t = choose|t: int| 0 <= t < idx && (#[trigger] rows@[t]).0
                            == out@[j].id->0;
                        assert(rows@[t].0 != rows@[idx as int].0);
                    }
                }
                out.push(
                    Specfile {
                        id: Some(row.0),
                        name: row.1.clone(),
                        description: row.2.clone(),
                        content: row.3.clone(),
                    },
                );
                proof {
                    assert(out@[out@.len() - 1].id == Some(key));
                }
            }
            idx += 1;
            proof {
                assert forall|t: int| 0 <= t < idx
                    && search::matches_query(self@[(#[trigger] rows@[t]).0], query@)
                    implies exists|j: int| 0 <= j < out@.len() && (#[trigger] out@[j]).id
                        == Some(rows@[t].0)
                by {
                    if t == idx - 1 {
                        assert(out@[out@.len() - 1].id == Some(key));
                    } else {
                        let j = choose|j: int| 0 <= j < out0.len() && (#[trigger] out0[j]).id
                            == Some(rows@[t].0);
                        assert(out@[j] == out0[j]);
                    }
                }
            }
        }
        proof {
            assert forall|k: i64| #[trigger] self@.contains_key(k)
                && search::matches_query(self@[k], query@)
                implies exists|j: int| 0 <= j < out@.len() && (#[trigger] out@[j]).id == Some(k)
            by {
                let t = choose|t: int| 0 <= t < rows@.len() && (#[trigger] rows@[t]).0 == k;
                assert(search::matches_query(self@[rows@[t].0], query@));
            }
        }
        Ok(out)
    }
}

} // verus!
