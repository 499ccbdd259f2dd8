//! The persisted visibility preference and the stores that keep it.

pub mod config_types;
pub mod file_config_manager;
pub mod memory_config_manager;
pub mod traits;

pub use config_types::Config;
pub use file_config_manager::FileConfigManager;
pub use memory_config_manager::MemoryConfigManager;
pub use traits::ConfigManager;
