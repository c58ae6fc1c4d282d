//! A remote-filesystem abstraction layer.
//!
//! An ID-addressed, parent-linked cloud object store is presented as a
//! conventional path-addressed tree. The core of the crate is the path cache:
//! the only index from a hierarchical path to an opaque remote object id. The
//! remote store offers no "resolve path" primitive, so every deep operation
//! (download, size aggregation, subtree copy) demands that its path was first
//! produced by a listing, a search, or an upload on the same session.
//!
//! The remote calls themselves are blocking I/O and are made by the driver
//! around this library. Each operation is therefore split into verified steps:
//! a query step that resolves paths and says which remote question to ask, and
//! a commit step that takes the remote answer and updates the cache and the
//! caller-facing views. The contracts of those steps pin the cache and the
//! results exactly, for every possible remote answer.

pub mod errors;
pub mod listing;
pub mod object;
pub mod provider;
pub mod session;
pub mod size;
pub mod sync;
pub mod text;
pub mod transfer;
