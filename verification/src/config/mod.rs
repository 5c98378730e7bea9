//! One-time upgrades of stored configuration.

pub mod migration;
