//! Session-lock orchestrator for a Wayland desktop shell.
//!
//! The core of this crate is a state machine that keeps one lock surface per
//! connected display output, elects a primary surface for keyboard focus, and
//! commits an atomic unlock only after an out-of-band authentication signal.
//! Compositor callbacks and cross-thread signals are routed through a single
//! event-application function, so the whole lifecycle can be stated and
//! proved as transitions over plain data.

pub mod channel;
pub mod config;
pub mod election;
pub mod greetd;
pub mod hyprland;
pub mod naming;
pub mod pam;
pub mod power;
pub mod session;
pub mod surface;
