//! Terminal-output rendering for a network intrusion-detection tool.
//!
//! The library turns structured events (a configuration snapshot, leveled
//! log messages, security alerts, periodic statistics) into lines of text.
//! Styling is controlled by a single boolean capability: when it is off,
//! every line is plain text with no escape sequences.

pub mod clock;
pub mod event;
pub mod laws;
pub mod render;
pub mod style;
pub mod text;
