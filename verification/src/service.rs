//! The configuration value object, its validation, and the core service.

use vstd::prelude::*;
use vstd::string::StringExecFns;

verus! {

/// An immutable name/version pair identifying a service instance.
#[derive(Debug, Clone)]
pub struct Config {
    pub name: String,
    pub version: String,
}

impl Default for Config {
    /// The fixed default configuration.
    fn default() -> (c: Config)
        ensures
            c.name@ == "cargo-tools-test"@,
            c.version@ == "0.1.0"@,
    {
        Config { name: "cargo-tools-test".to_owned(), version: "0.1.0".to_owned() }
    }
}

/// Returns the fixed default configuration.
pub fn create_default_config() -> (c: Config)
    ensures
        c.name@ == "cargo-tools-test"@,
        c.version@ == "0.1.0"@,
{
    Config::default()
}

/// Signals which required field of a `Config` was found empty.
#[derive(Debug, Clone, Copy, PartialEq, Eq, Structural)]
pub enum ValidationError {
    EmptyName,
    EmptyVersion,
}

impl ValidationError {
    /// The human-readable message for this error.
    pub fn message(&self) -> (m: String)
        ensures
            *self == ValidationError::EmptyName ==> m@ == "Config name cannot be empty"@,
            *self == ValidationError::EmptyVersion ==> m@ == "Config version cannot be empty"@,
    {
        match self {
            ValidationError::EmptyName => "Config name cannot be empty".to_owned(),
            ValidationError::EmptyVersion => "Config version cannot be empty".to_owned(),
        }
    }
}

/// Checks that both fields of a configuration are non-empty, the name first:
/// the first failing check decides the error.
pub fn validate_config(config: &Config) -> (r: Result<(), ValidationError>)
    ensures
        r is Ok <==> config.name@.len() > 0 && config.version@.len() > 0,
        config.name@.len() == 0 ==> r == Err::<(), ValidationError>(ValidationError::EmptyName),
        config.name@.len() > 0 && config.version@.len() == 0 ==> r == Err::<(), ValidationError>(
            ValidationError::EmptyVersion,
        ),
{
    if config.name.as_str().is_empty() {
        Err(ValidationError::EmptyName)
    } else if config.version.as_str().is_empty() {
        Err(ValidationError::EmptyVersion)
    } else {
        Ok(())
    }
}

/// A stateless service binding a `Config` to one formatting operation.
pub struct CoreService {
    config: Config,
}

impl CoreService {
    /// The configuration this service was built with.
    pub closed spec fn spec_config(&self) -> Config {
        self.config
    }

    /// Builds a service owning the given configuration.
    pub fn new(config: Config) -> (s: CoreService)
        ensures
            s.spec_config() == config,
    {
        CoreService { config }
    }

    /// Read-only access to the owned configuration.
    pub fn get_config(&self) -> (c: &Config)
        ensures
            *c == self.spec_config(),
    {
        &self.config
    }

    /// Tags the input with the configuration's name:
    /// `"[<name>] Processed: <data>"`.
    pub fn process_data(&self, data: &str) -> (r: String)
        ensures
            r@ == "["@ + self.spec_config().name@ + "] Processed: "@ + data@,
    {
        let mut r: String = "[".to_owned();
        r.append(self.config.name.as_str());
        r.append("] Processed: ");
        r.append(data);
        r
    }
}

} // verus!
