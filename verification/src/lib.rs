//! Drift detection for dynamic DNS.
//!
//! The library holds every decision of a dynamic-DNS daemon and none of its
//! input or output: how an address is written and read, what a provider is
//! asked and how its answer is understood, when a record counts as drifted,
//! and in which order a polling cycle proceeds. A driver performs the
//! lookups, the provider calls and the waiting, and reports back what happened.

pub mod address;
pub mod config;
pub mod provider;
pub mod reconcile;
pub mod resolver;
pub mod scheduler;
pub mod task;
