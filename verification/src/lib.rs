//! The polling and state-reconciliation engine of a review-request counter.
//!
//! The engine decides when and how the count of pending review requests is
//! fetched, interprets what the external tools hand back, and keeps the last
//! known status consistent while configuration changes and fetch results
//! arrive in any order.

pub mod app;
pub mod config;
pub mod fetch;
pub mod probe;
pub mod status;
pub mod supervisor;
pub mod text;
pub mod tool;
