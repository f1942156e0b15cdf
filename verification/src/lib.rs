//! Ingestion-and-storage core for proof-of-play telemetry: tenant
//! authentication against a key registry, and atomic batched persistence of
//! play events attributed to the authenticated tenant.

pub mod app_context;
pub mod ledger;
pub mod real_time_pop_request;
