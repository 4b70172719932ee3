//! Verified core of an index-migration pipeline: discovery of catalog
//! metadata is planned and its results are materialized as one statement
//! file per index, and previously generated statements are replayed
//! against a bounded pool of target connections, tolerating per-item
//! failures without aborting the batch.
//!
//! All database and filesystem traffic is performed by an unverified
//! driver; this crate holds the decisions: filter resolution, filename
//! sanitization, directory-reset planning, statement collection over a
//! directory model, pool sizing, and the replay state machine with its
//! outcome accounting.

pub mod cli;
pub mod collect;
pub mod export;
pub mod fs_reset;
pub mod pool;
pub mod replay;
pub mod sanitize;
pub mod settings;
