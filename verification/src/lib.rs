//! Ingestion of broker account-activity exports.
//!
//! The crate decodes two incompatible broker export formats (a tab-delimited
//! multi-section text format and a self-describing JSON format), normalizes
//! the broker-native records into one canonical model of trade executions and
//! fiscal (cash) events, and reconciles the canonical batch idempotently into
//! a keyed store, so that re-uploading the same export never creates
//! duplicate rows but refreshes changed fields.

pub mod datetime;
pub mod decimal;
pub mod errors;
pub mod exante;
pub mod fiscal_transaction;
pub mod freedomfinance;
pub mod jsonval;
pub mod model;
pub mod portfolio;
pub mod report;
pub mod repository;
pub mod settings;
pub mod text;
pub mod trade_operation;
pub mod user_transaction;
pub mod web;
