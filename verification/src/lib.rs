//! A background task that downloads a metadata document for an asset and
//! persists it against the asset's record.
//!
//! The task's decision logic lives here, fully verified: URI sanitization,
//! URI validation, classification of a fetch attempt's result, and the final
//! outcome reported to the scheduler. The surrounding I/O (the HTTP request
//! itself and the store write) is driven by a thin shell that feeds the
//! results back into these functions as plain events.

pub mod json;
pub mod laws;
pub mod payload;
pub mod sanitize;
pub mod task;
pub mod uri;
