//! Clipboard sinks.

pub mod clipboard;
pub mod traits;

pub use clipboard::MockClipboardManager;
pub use traits::ClipboardManager;
