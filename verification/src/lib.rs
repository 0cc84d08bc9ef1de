//! A small store for "specfiles": short text documents with a name, a
//! description and free-text content, kept in an embedded SQLite database.
//!
//! The store exposes create / read / update / delete, a full listing, and a
//! case-insensitive substring search over all three text fields. Every
//! operation's effect is stated against a mathematical view of the database:
//! a map from record identifier to the three text fields.

use vstd::prelude::*;

pub mod db;
pub mod laws;
pub mod search;
pub mod store;

pub use store::SpecBase;
pub use store::rows_are_matches;
pub use store::rows_are_records;

verus! {

/// The failures the store reports.
#[derive(Debug)]
pub enum SpecError {
    /// The underlying database engine failed (open, prepare, execute or
    /// read), other than a not-found condition.
    DatabaseError(rusqlite::Error),
    /// No record has the given identifier.
    SpecfileNotFound(i64),
    /// The configuration directory that should hold the database file could
    /// not be resolved or created.
    ConfigDirError,
}

/// A stored document: an identifier (absent before the record is persisted)
/// and three text fields.
#[derive(Debug)]
pub struct Specfile {
    /// Unique identifier, assigned by the store on creation; `None` for a
    /// record that has not been persisted yet.
    pub id: Option<i64>,
    /// Short text label.
    pub name: String,
    /// Short free-text summary.
    pub description: String,
    /// Arbitrary-length free text.
    pub content: String,
}

/// The three text fields of a record, as the store's mathematical view
/// holds them: sequences of characters, in the order name, description,
/// content.
pub type FieldsView = (Seq<char>, Seq<char>, Seq<char>);

/// The view of a `Specfile`'s text fields, ignoring its identifier.
pub open spec fn fields_of(s: Specfile) -> FieldsView {
    (s.name@, s.description@, s.content@)
}

} // verus!
