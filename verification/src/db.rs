//! The trusted boundary to the embedded SQLite database, through `rusqlite`.
//!
//! Everything the store assumes of the database is stated here. The records
//! of the `specfiles` table behind a connection are modelled as a map from
//! identifier to the three text fields (`db_records`), and each SQL statement
//! the store issues stands behind one function whose contract says what the
//! statement does to that map. SQLite runs every statement atomically, so a
//! failed statement leaves the records as they were.

use vstd::prelude::*;
use crate::FieldsView;

verus! {

#[verifier::external_type_specification]
#[verifier::external_body]
pub struct ExConnection(rusqlite::Connection);

#[verifier::external_type_specification]
#[verifier::external_body]
pub struct ExSqliteError(rusqlite::Error);

/// The records of the `specfiles` table of the database behind `conn`, as a
/// map from identifier to (name, description, content); the empty map where
/// the table is absent. A connection is held exclusively by one store for its
/// whole lifetime, so the table's contents are a function of the connection
/// value.
pub uninterp spec fn db_records(conn: rusqlite::Connection) -> Map<i64, FieldsView>;

/// The rows `rs` are exactly the records of `m`: each row carries a key of
/// `m` with that key's fields, every key of `m` appears, and no key appears
/// twice. The order of the rows is left open.
pub open spec fn raw_rows_ok(m: Map<i64, FieldsView>, rs: Seq<(i64, String, String, String)>) -> bool {
    &&& forall|j: int| #![trigger rs[j]] 0 <= j < rs.len()
            ==> m.contains_key(rs[j].0) && m[rs[j].0] == (rs[j].1@, rs[j].2@, rs[j].3@)
    &&& forall|k: i64| #[trigger] m.contains_key(k)
            ==> exists|j: int| 0 <= j < rs.len() && (#[trigger] rs[j]).0 == k
    &&& forall|j1: int, j2: int| #![trigger rs[j1], rs[j2]] 0 <= j1 < j2 < rs.len()
            ==> rs[j1].0 != rs[j2].0
}

/// Relies on `rusqlite::Connection::open`: opens the database file at `path`,
/// creating it where it is missing. Nothing is assumed of the records behind
/// the returned connection: they are whatever the file already held.
#[verifier::external_body]
pub(crate) fn open_connection(path: &str) -> Result<rusqlite::Connection, rusqlite::Error> {
    rusqlite::Connection::open(path)
}

/// Relies on `rusqlite::Connection::execute` with `CREATE TABLE IF NOT
/// EXISTS`: the statement creates the (empty) `specfiles` table where it is
/// absent and does nothing where it exists, so the records are preserved
/// either way; a failed statement changes nothing.
#[verifier::external_body]
pub(crate) fn create_table(conn: &mut rusqlite::Connection) -> (r: Result<(), rusqlite::Error>)
    ensures
        db_records(*final(conn)) == db_records(*old(conn)),
{
    match conn.execute(
        "CREATE TABLE IF NOT EXISTS specfiles (
            id INTEGER PRIMARY KEY,
            name TEXT NOT NULL,
            description TEXT NOT NULL,
            content TEXT NOT NULL
        )",
        (),
    ) {
        Ok(_) => Ok(()),
        Err(e) => Err(e),
    }
}

/// Relies on `rusqlite::Connection::execute` with an `INSERT` statement and
/// on `rusqlite::Connection::last_insert_rowid`: a successful `INSERT` stores
/// the three fields under a rowid that was not in use before the call, and
/// `last_insert_rowid` returns that rowid; a failed statement changes
/// nothing.
#[verifier::external_body]
pub(crate) fn insert_row(
    conn: &mut rusqlite::Connection,
    name: &str,
    description: &str,
    content: &str,
) -> (r: Result<i64, rusqlite::Error>)
    ensures
        r matches Ok(id) ==> !db_records(*old(conn)).contains_key(id)
            && db_records(*final(conn))
                == db_records(*old(conn)).insert(id, (name@, description@, content@)),
        r is Err ==> db_records(*final(conn)) == db_records(*old(conn)),
{
    conn.execute(
        "INSERT INTO specfiles (name, description, content) VALUES (?1, ?2, ?3)",
        (name, description, content),
    )?;
    Ok(conn.last_insert_rowid())
}

/// Relies on `rusqlite::Connection::execute` with an `UPDATE ... WHERE id`
/// statement, which returns the number of rows it changed: one when the key
/// is present (its fields are replaced), none when it is absent; a failed
/// statement changes nothing.
#[verifier::external_body]
pub(crate) fn update_row(
    conn: &mut rusqlite::Connection,
    id: i64,
    name: &str,
    description: &str,
    content: &str,
) -> (r: Result<usize, rusqlite::Error>)
    ensures
        r matches Ok(n) ==> if db_records(*old(conn)).contains_key(id) {
            n == 1 && db_records(*final(conn))
                == db_records(*old(conn)).insert(id, (name@, description@, content@))
        } else {
            n == 0 && db_records(*final(conn)) == db_records(*old(conn))
        },
        r is Err ==> db_records(*final(conn)) == db_records(*old(conn)),
{
    conn.execute(
        "UPDATE specfiles SET name = ?1, description = ?2, content = ?3 WHERE id = ?4",
        (name, description, content, id),
    )
}

/// Relies on `rusqlite::Connection::execute` with a `DELETE ... WHERE id`
/// statement, which returns the number of rows it removed: one when the key
/// is present, none when it is absent; a failed statement changes nothing.
#[verifier::external_body]
pub(crate) fn delete_row(conn: &mut rusqlite::Connection, id: i64) -> (r: Result<
    usize,
    rusqlite::Error,
>)
    ensures
        r matches Ok(n) ==> if db_records(*old(conn)).contains_key(id) {
            n == 1 && db_records(*final(conn)) == db_records(*old(conn)).remove(id)
        } else {
            n == 0 && db_records(*final(conn)) == db_records(*old(conn))
        },
        r is Err ==> db_records(*final(conn)) == db_records(*old(conn)),
{
    conn.execute("DELETE FROM specfiles WHERE id = ?1", (id,))
}

/// Relies on `rusqlite::Connection::query_row` with a `SELECT ... WHERE id`
/// statement and on `rusqlite::OptionalExtension::optional`: the row with the
/// given key comes back when it is present, `None` when it is not, and
/// `rusqlite::Row::get` hands out the row's columns.
#[verifier::external_body]
pub(crate) fn select_row(conn: &rusqlite::Connection, id: i64) -> (r: Result<
    Option<(i64, String, String, String)>,
    rusqlite::Error,
>)
    ensures
        r matches Ok(Some(row)) ==> row.0 == id && db_records(*conn).contains_key(id)
            && db_records(*conn)[id] == (row.1@, row.2@, row.3@),
        r matches Ok(None) ==> !db_records(*conn).contains_key(id),
{
    let found = conn.query_row(
        "SELECT id, name, description, content FROM specfiles WHERE id = ?1",
        (id,),
        |row| Ok((row.get(0)?, row.get(1)?, row.get(2)?, row.get(3)?)),
    );
    match found {
        Ok(row) => Ok(Some(row)),
        Err(rusqlite::Error::QueryReturnedNoRows) => Ok(None),
        Err(e) => Err(e),
    }
}

/// Relies on `rusqlite::Connection::prepare` with a `SELECT` over the whole
/// table and on `rusqlite::Statement::query_map`: every row of `specfiles`
/// comes back exactly once, in an order the engine chooses, and
/// `rusqlite::Row::get` hands out each row's columns; the table's primary key
/// keeps the identifiers distinct.
#[verifier::external_body]
pub(crate) fn select_all(conn: &rusqlite::Connection) -> (r: Result<
    Vec<(i64, String, String, String)>,
    rusqlite::Error,
>)
    ensures
        r matches Ok(rows) ==> raw_rows_ok(db_records(*conn), rows@),
{
    let mut stmt = conn.prepare("SELECT id, name, description, content FROM specfiles")?;
    let rows = stmt.query_map((), |row| {
        Ok((row.get(0)?, row.get(1)?, row.get(2)?, row.get(3)?))
    })?;
    let mut out = Vec::new();
    for row in rows {
        out.push(row?);
    }
    Ok(out)
}

} // verus!
