//! The gst-pop backend: its wire protocol, verb mapping, daemon
//! endpoint and service management.

pub mod backend;
pub mod client;
pub mod embedded;
pub mod protocol;
pub mod service;
