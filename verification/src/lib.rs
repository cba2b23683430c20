//! Schema reconciliation and condition compilation for SQL databases.
//!
//! A declared table shape is compared with the live one and turned into
//! the statements that bring the database to it; a tree of filter
//! conditions is turned into a `WHERE` clause with numbered placeholders
//! and the values that go with them. The library writes statements and
//! decides what is to be done; running them against a database is left
//! to the caller.

pub mod text;
pub mod error;
pub mod pattern;
pub mod quote;
pub mod requote;
pub mod sql_types;
pub mod rust_types;
pub mod types;
pub mod postgres;
pub mod column;
pub mod index;
pub mod table;
pub mod context;
pub mod value;
pub mod convert;
pub mod condition;
pub mod page;
pub mod pg_schema;
pub mod schema;
pub mod builder;
pub mod entity;
pub mod value_parser;
pub mod declare;
pub mod introspect;
pub mod upgrade;
pub mod validate;
pub mod sync;
pub mod pass;
pub mod convergence;
