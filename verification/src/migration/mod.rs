//! The in-process migration media graph: its nodes and service management.

pub mod nodes;
pub mod service;
