pub mod cascade;
pub mod datetime;
pub mod schema;
pub mod statement;
