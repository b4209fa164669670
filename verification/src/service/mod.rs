//! Service binaries: their start configuration, value types, and the decisions of the
//! driver that starts, waits for, and stops them.

pub mod config;
pub mod types;

pub use config::{ServiceStartConfig, ServiceStartConfigView};
pub use types::{Architecture, EnvVar, Platform, ServiceUtilError, VerifyBinaryError};
pub mod plan;
