//! A tiny file-backed document store: each collection is one JSON file under a
//! root directory, and records are addressed by a caller-defined identifier.
//!
//! This library holds the engine's logic with its proofs: how collection
//! names map to files, which directory entries are collections, the record
//! operations on an in-memory collection, and the decisions of the connect and
//! collection steps. Reading and writing the files is left to the caller.

pub mod db;
pub mod error;
pub mod laws;
pub mod naming;
pub mod records;

pub use db::Database;
pub use error::{DBError, ErrorKind};
pub use records::{Data, Entry};
