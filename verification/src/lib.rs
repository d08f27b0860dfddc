//! A small desktop-application shell, split into its two pieces of logic:
//! a pure greeting formatter and a splashscreen-to-main-window coordinator.
//!
//! The coordinator is a state machine over plain values: the host GUI
//! runtime owns the real windows, and the surrounding binary performs the
//! actions that the coordinator decides on.

pub mod coordinator;
pub mod greeting;
