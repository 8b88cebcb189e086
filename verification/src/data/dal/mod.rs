//! The data access layer's description of the database.

pub mod sqlite;
