pub mod json;
pub mod order;
pub mod object;
pub mod merge;
pub mod laws;
pub mod text;
pub mod pointer;
pub mod config;
pub mod env;
pub mod source;
pub mod registry;
pub mod instance;
pub mod consul;
pub mod mdns;
pub mod service;

pub use config::{EnvSourceOptions, FileSourceOptions, KeyCase};
pub use json::JsonValue;
pub use source::{ConfigError, NorthConfig, SourceOutcome};
