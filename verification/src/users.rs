//! Users: the records, the commands on them and what the user routes decide.

pub mod errors;
pub mod models;
pub mod routes;
