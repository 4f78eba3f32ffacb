//! Pong — a synthetic web health monitor that lives in the system tray.
//!
//! This crate holds the monitor's logic: configuration validation, the
//! health-check verdicts and decisions, the script handed to the hidden
//! webview, the usage-panel parsing, the schedule helpers and the shared
//! monitor state. Windows, timers and disk access live in the application
//! around it.
pub mod text;
pub mod time;
pub mod tray;
pub mod config;
pub mod health;
pub mod injection;
pub mod monitor;
pub mod scheduler;
pub mod state;
pub mod usage;
