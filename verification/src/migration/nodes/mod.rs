//! Nodes of the migration media graph.

pub mod screen_capture;
