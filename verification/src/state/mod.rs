//! Application state, settings and the commands exchanged with the worker.

pub mod app_state;
pub mod events;
pub mod handlers;
pub mod config;
