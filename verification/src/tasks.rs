//! Tasks: the records, the commands on them and what the task routes decide.

pub mod errors;
pub mod list;
pub mod models;
pub mod routes;
