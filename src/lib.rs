//! Verified core of a user-defined-function engine for well-log curve data.
//!
//! Providers register computation units in a registry, parameters are
//! validated against typed definitions, executions leave a provenance record,
//! and derived curves are stored under a content-addressed path.

pub mod context;
pub mod curves;
pub mod error;
pub mod ids;
pub mod output;
pub mod parameters;
pub mod pipeline;
pub mod provenance;
pub mod providers;
pub mod registry;
pub mod responses;
pub mod stages;
pub mod text;
pub mod types;
