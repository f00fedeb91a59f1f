//! Core of a small real-time renderer: the registry of renderable instances
//! and the per-frame synchronisation state machine, with their contracts.

pub mod buffer;
pub mod commands;
pub mod device;
pub mod error;
pub mod frame;
pub mod model;
pub mod model_view;
pub mod teardown;
