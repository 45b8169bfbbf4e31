//! Where the local database lives and how the client starts from it.

use vstd::prelude::*;

use crate::databasespec::Database;

verus! {

/// The file that holds the database unless another is named.
pub const DB_PATH: &'static str = "db.json";

/// A handle on the local database.
pub struct DbConn {}

impl DbConn {
    /// Opens the handle; nothing is read.
    pub fn first_connection() -> (r: DbConn) {
        DbConn {}
    }
}

/// The file named by `override_path`, or `db.json`.
pub fn resolve_path(override_path: Option<&str>) -> (r: &str)
    ensures
        r@ == match override_path {
            Some(p) => p@,
            None => DB_PATH@,
        },
{
    match override_path {
        Some(p) => p,
        None => DB_PATH,
    }
}

/// What must be written before the database file can be used: the default
/// database when the file does not exist yet, nothing when it does.
pub fn ensure_db(file_exists: bool) -> (r: Option<Database>)
    ensures
        r is Some <==> !file_exists,
        r matches Some(db) ==> db.is_default(),
{
    if file_exists {
        None
    } else {
        Some(Database::default())
    }
}

/// What reading the database file gave: no file, a file that does not hold
/// a database, or the database it holds.
#[derive(Debug)]
pub enum DbFile {
    Missing,
    Unreadable,
    Parsed(Database),
}

/// The database to work with, and whether it must be written back to the
/// file: a parsed database is used as it is; a missing or unreadable file is
/// replaced by the default database.
pub fn load_db(file: DbFile) -> (r: (Database, bool))
    ensures
        match file {
            DbFile::Parsed(db) => r.0 == db && !r.1,
            _ => r.0.is_default() && r.1,
        },
{
    match file {
        DbFile::Parsed(db) => (db, false),
        _ => (Database::default(), true),
    }
}

} // verus!
