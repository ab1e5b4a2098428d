//! The ingestion boundary of a primary for batch reports from its workers:
//! reports of its own workers' batches go to the pipeline with an
//! acknowledgment, reports of peers' batches go to the digest store, and the
//! worker table is answered from a snapshot.

pub mod controller;
pub mod laws;
pub mod own_batch;
pub mod store;
pub mod types;
