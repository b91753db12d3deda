//! Verified core of a lead-record CSV ingestion pipeline.
//!
//! The library holds the pure logic of the importer: filename metadata
//! extraction, header schema validation, row extraction with owner
//! fallback rules, two-level deduplication (campaign-scoped lead ids and
//! a run-global phone set), batch accumulation, the foreign-key layout of
//! a transactional bulk insert, and the file lifecycle decision.  All
//! I/O (filesystem, database) lives outside the library and hands in
//! plain values.

pub mod batch;
pub mod campaign;
pub mod config;
pub mod extract;
pub mod filename;
pub mod laws;
pub mod records;
pub mod schema;
pub mod session;
pub mod strset;
pub mod strutil;
