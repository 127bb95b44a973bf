//! Verified core of a bookmark-archiving tool for two creator platforms.
//!
//! The library holds the synchronization and download-reconciliation logic:
//! the visibility lattice that gates metadata updates, the tag-association
//! diff, the persist-and-reconcile state machine for downloaded files, the
//! path-encoding policy, and the rate-limited fetch gate. All I/O (HTTP,
//! filesystem, database) lives outside; the library computes decisions and
//! plans over plain values.

pub mod assoc;
pub mod cmd;
pub mod config;
pub mod database;
pub mod db;
pub mod download;
pub mod fanbox;
pub mod fetch;
pub mod paths;
pub mod pixiv;
pub mod query;
pub mod reconcile;
pub mod sync;
pub mod text;
pub mod util;
