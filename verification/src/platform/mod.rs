//! Platform-side UI state: panel navigation, the lifecycle overlays, and
//! the recording timer.

pub mod lifecycle;
pub mod panel_stack;
pub mod platform_app;
