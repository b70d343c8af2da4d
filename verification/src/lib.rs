//! Lifecycle management for a periodically refreshed binary geolocation
//! database: sniffing and unwrapping container formats around a payload,
//! validating a candidate database before it is installed, and the decision
//! logic that keeps a live handle and its on-disk artifact consistent while
//! refresh cycles run.

pub mod archive;
pub mod database;
pub mod fetch;
pub mod format;
pub mod registry;
pub mod scheduler;
pub mod store;
