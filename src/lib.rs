pub mod laws;
pub mod models;
pub mod query;
pub mod reply;
pub mod schedule;
pub mod table;
pub mod value;
