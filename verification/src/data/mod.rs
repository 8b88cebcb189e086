//! The data of the command store: the models and the schema of the table
//! that holds them.

pub mod dal;
pub mod models;
