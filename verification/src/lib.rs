//! Core of a small species-lookup aggregation service.
//!
//! The library holds the verified request logic: text normalization,
//! translator selection, mapping of upstream catalog payloads into the
//! client-facing record, interpretation of HTTP outcomes into the error
//! taxonomy, and the lookup orchestration with its fallback policy.
//! The unverified binary around it performs the actual HTTP calls and
//! hands their outcomes to these functions as plain values.

pub mod config;
pub mod error;
pub mod orchestrator;
pub mod pokemon;
pub mod text;
pub mod translation;
