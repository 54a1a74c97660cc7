//! Hardware-survey telemetry: anonymisation of reported system facts, the
//! versioned report, the per-table upsert plan of the ingestion server, and the
//! retry schedule of the submitting client.

pub mod anonymization;
pub mod dimensions;
pub mod machine_id;
pub mod payload;
pub mod query;
pub mod request;
pub mod rows;
pub mod sender;
pub mod writer;
