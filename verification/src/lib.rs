//! Verified core of the FCast Android sender: configuration, protocol
//! framing, service and backend decisions, and UI state models.

pub mod application;
pub mod backend;
pub mod command;
pub mod composition;
pub mod config;
pub mod error;
pub mod jni_bridge;
pub mod log_ring;
pub mod ident;
pub mod json;
pub mod migration;
pub mod migration_runtime;
pub mod migration_service;
pub mod overlay;
pub mod platform;
pub mod secret;
pub mod service;
pub mod text;
