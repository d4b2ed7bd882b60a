//! Persistence layer of a small event-planning backend: records for users,
//! parties and attendances, their column codecs, and a generic entity store
//! over an SQLite connection.

pub mod value;
pub mod sqlite;
pub mod entity;
pub mod user;
pub mod party;
pub mod attending;
pub mod authorized_user;
pub mod routes;
pub mod laws;
pub mod schema;
