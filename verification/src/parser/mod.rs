//! The configuration: the tasks to run and the notifiers to tell.

pub mod config;
pub mod error;
pub mod keys;
pub mod yaml;

pub use config::Configuration;
pub use keys::ConfigKey;
