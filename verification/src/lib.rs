//! State management for a display compositor's settings: a format-preserving
//! configuration document, typed accessors for output positions, key bindings
//! and appearance, pending-change overlays and multi-monitor layout geometry.

pub mod app;
pub mod category;
pub mod config;
pub mod display;
pub mod error;
pub mod ipc;
pub mod message;
pub mod model;
pub mod search;
pub mod text;
pub mod update;
