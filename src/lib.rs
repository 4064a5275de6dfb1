//! Aggregation pipelines for the telemetry store: a builder of stage
//! sequences, the analytical queries built on it, the account rules and
//! records of the web layer, and the decisions the service takes as a
//! plugin of the core system.

pub mod pipeline;
pub mod queries;
pub mod auth;
pub mod salt;
pub mod records;
pub mod plugin;
