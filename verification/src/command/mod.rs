//! Commands sent to the in-process media-graph runtime and its HTTP command
//! server: request framing, reply checks, and the debug smoke scripts.

pub mod http_runner;
pub mod legacy_tests;
pub mod probe;
pub mod script_run;
