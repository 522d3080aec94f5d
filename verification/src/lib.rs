//! Window foreground-activation subsystem.
//!
//! Locates the application's top-level window in a model of the OS window
//! registry, restores and shows it, and transfers foreground focus to it
//! through a ladder of escalating techniques, while recording a structured
//! trace and consuming a pending-keyword marker.

pub mod arbitrator;
pub mod deeplink;
pub mod desktop;
pub mod locator;
pub mod marker;
pub mod normalizer;
pub mod notify;
pub mod orchestrator;
pub mod poller;
pub mod text;
pub mod trace;
