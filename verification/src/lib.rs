//! Lifecycle controller for a desktop shell that hosts one web page in one
//! native window.
//!
//! The controller decides, from a resolved configuration, which native
//! integrations are wired at startup, and reacts to hotkey presses, tray
//! events and close requests by naming the commands the runtime has to carry
//! out. It performs no I/O itself: every decision is a function from plain
//! values to plain values.

pub mod action;
pub mod bridge;
pub mod close;
pub mod config;
pub mod controller;
pub mod fatal;
pub mod laws;
pub mod toggle;
pub mod tray;
pub mod window;
