//! Program management for a ledger-style network: a caller's identity, a
//! resolver that locates program sources, and the guards around broadcast.

pub mod completeness;
pub mod config;
pub mod error;
pub mod identity;
pub mod ledger;
pub mod manager;
pub mod model;
pub mod resolution;
pub mod resolvers;
pub mod runs;
