//! Page-table hierarchy core for a four-level, 64-bit paged virtual-memory
//! architecture.
//!
//! The crate models the entries of a table as plain values (their bit layout
//! is owned by an external collaborator), encodes the four levels of the
//! hierarchy as zero-size type tags so that descending below the leaf level
//! is impossible to express, and verifies the descent and lazy-creation
//! algorithms against that model.

pub mod entry;
pub mod table;
