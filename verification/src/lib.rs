//! Startup planning for a single-process Drogue Cloud server: which services
//! run, how their endpoints and TLS are configured, and what the operator is
//! shown once everything has started.

pub mod cli;
pub mod decimal;
pub mod external;
pub mod launcher;
pub mod mqtt;
pub mod plan;
pub mod summary;
