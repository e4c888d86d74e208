//! A local catalog index over repository records, organized into a
//! three-level taxonomy (document -> section -> subsection).
//!
//! The crate offers filtered, paginated, sorted listing; ranked free-text
//! search; create/partial-update/delete of repository records; and a
//! hierarchical tree aggregation that reports, for every taxonomy node, the
//! count of repository records attached to it.  Persistence is delegated to
//! an SQLite store reached through a small set of trusted wrappers; every
//! query is built and checked here before it is handed to the store.

pub mod github;
pub mod laws;
pub mod model;
pub mod records;
pub mod service;
pub mod sqlgen;
pub mod store;
