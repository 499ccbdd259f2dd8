//! Derivation strategies: from a master secret and a service label to a password.

pub mod sha256_generator;
pub mod traits;

pub use sha256_generator::Sha256PasswordGenerator;
pub use traits::PasswordGenerator;
