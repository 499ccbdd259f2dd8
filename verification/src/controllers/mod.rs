//! The controller behind the presentation layer.

pub mod password_controller;

pub use password_controller::PasswordController;
