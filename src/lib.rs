//! Core of a container build-and-deploy orchestrator: resources with
//! per-user permissions, the update ledger, diff-driven reconciliation,
//! the build action, account resolution and tag search.
pub mod accounts;
pub mod actions;
pub mod builds;
pub mod diff;
pub mod entities;
pub mod ledger;
pub mod name;
pub mod permission;
pub mod search;
pub mod store;
pub mod version;
