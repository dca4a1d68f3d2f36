//! An object-graph mapping layer for a label-graph database.
//!
//! The library holds the rules of the mapping and no connection: from the
//! metadata of an entity type and the fields of an entity it makes the
//! statements to run, and from the rows that come back it reads entities.
//! Whoever runs the statements owns the database.
//!
//! - [`derive`]: from the annotated declaration of a type to its metadata.
//! - [`metadata`]: the metadata of node and relationship types.
//! - [`value`]: kinds of values and the type coercion table.
//! - [`dictionary`]: property dictionaries.
//! - [`json`]: the fields of an entity that serde_json serialized.
//! - [`codec`]: between entities, property dictionaries and rows.
//! - [`schema`]: the statements that create tables.
//! - [`query`]: the statements that create, find and filter entities.
//! - [`statement`]: a statement and the values bound in it.
//! - [`transaction`]: the life of a transaction.
//! - [`graph`]: what each operation of the client runs, and on which
//!   connection.
//! - [`text`], [`first`]: numerals, separated lists, first positions.

pub mod codec;
pub mod derive;
pub mod dictionary;
pub mod error;
pub mod first;
pub mod graph;
pub mod json;
pub mod metadata;
pub mod query;
pub mod schema;
pub mod statement;
pub mod text;
pub mod transaction;
pub mod value;

pub use derive::{derive_node, derive_relationship};
pub use error::Error;
pub use graph::KuzuGraph;
pub use query::QueryBuilder;
pub use transaction::Transaction;
