//! Deterministic per-service password derivation, and the controller that
//! decides how a derived password is shown and copied.

pub mod clipboard;
pub mod config;
pub mod controllers;
pub mod generators;
