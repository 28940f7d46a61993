//! Access-control decision point: rebuilds a request from proxy-forwarded
//! headers, enriches it with geo data, matches it against ordered regex rules,
//! decides allow or deny, and batches the audit records that should be kept.

pub mod pattern;
pub mod descriptor;
pub mod matcher;
pub mod rule;
pub mod ignored;
pub mod ruleset;
pub mod decision;
pub mod cache;
pub mod text;
pub mod geo;
pub mod request;
pub mod admin;
