//! Small service-configuration library: an immutable `Config` value, a
//! `CoreService` that tags text with its configuration's name, validation of
//! configurations, and pure text utilities.

pub mod service;
pub mod strings;

pub use service::{Config, CoreService, ValidationError, create_default_config, validate_config};
pub use strings::{capitalize, reverse, validate_email, word_count};
