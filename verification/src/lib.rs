//! A verified core for an error-report relay ("tunnel"): it parses the
//! header of an envelope payload to discover the destination host, project
//! and key, checks them against operator-configured allowlists, and plans
//! the upstream forwarding call together with the caller-facing response.

pub mod config;
pub mod relay;
pub mod sentry;
pub mod strutil;
