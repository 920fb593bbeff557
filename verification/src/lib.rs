//! A small instrumented user service, together with a collection of verified
//! data-transformation routines on toy user records.
//!
//! The service part models an in-memory user store with simulated backend
//! flakiness, a request router, and a tracing middleware that resolves a
//! correlation identifier and emits one latency measurement per request.

mod outside;

pub mod age_parse;
pub mod age_stats;
pub mod age_sums;
pub mod full_names;
pub mod file_read;
pub mod laws;
pub mod meal_pairs;
pub mod name_filters;
pub mod router;
pub mod service;
pub mod store;
pub mod telemetry;
pub mod text;
pub mod uris;
pub mod zip_users;
