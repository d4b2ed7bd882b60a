use vstd::prelude::*;

verus! {

/// Statements creating the four tables, columns in the order the record
/// codecs use, identifier first. Coordinates are integer columns holding bit
/// patterns, so that they are stored without conversion.
pub fn schema_sql() -> (r: &'static str) {
    "CREATE TABLE IF NOT EXISTS users (
        id INTEGER PRIMARY KEY AUTOINCREMENT,
        username TEXT NOT NULL,
        guest_rating INTEGER,
        host_rating INTEGER
    );
    CREATE TABLE IF NOT EXISTS parties (
        id INTEGER PRIMARY KEY AUTOINCREMENT,
        host_id INTEGER NOT NULL,
        title TEXT NOT NULL,
        description TEXT NOT NULL,
        latitude INTEGER NOT NULL,
        longitude INTEGER NOT NULL,
        capacity INTEGER NOT NULL,
        attendees INTEGER NOT NULL,
        start_time INTEGER NOT NULL,
        visibility INTEGER NOT NULL
    );
    CREATE TABLE IF NOT EXISTS attendings (
        id INTEGER PRIMARY KEY AUTOINCREMENT,
        attendee_id INTEGER NOT NULL,
        party_id INTEGER NOT NULL
    );
    CREATE TABLE IF NOT EXISTS authorized_users (
        id INTEGER PRIMARY KEY AUTOINCREMENT,
        sec_hash TEXT NOT NULL,
        auth_key TEXT NOT NULL,
        last_accessed INTEGER NOT NULL
    );"
}

} // verus!
