//! The CMS configuration and its content types.

pub mod config;
pub mod field;
pub mod runtime;
pub mod watch;

pub use config::{AuthConfig, DatabaseConfig, ProviderConfig, StorageConfig, TinyCmsConfig};
pub use field::{FieldDef, FieldError, TypeDef};
