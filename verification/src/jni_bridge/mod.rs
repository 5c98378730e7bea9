//! What the Java side of the app asks of the native library, and what it
//! gets back: status documents, UI state updates, back-press handling,
//! discovered addresses and camera frames.

pub mod discovery;
pub mod gstpop_bridge;
pub mod helpers;
pub mod main_activity;
pub mod migration_bridge;
