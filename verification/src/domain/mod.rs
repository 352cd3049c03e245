//! The n8n data model and the analyses run over it.
pub mod execution;
pub mod insights;
pub mod insights_compute;
pub mod json;
pub mod workflow;
