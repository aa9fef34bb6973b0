//! Errors that can arise while loading an effect configuration.

use vstd::prelude::*;

verus! {

/// Why loading the effect configuration failed. Each failure is permanent for
/// the plugin instance: no later frame retries the load.
#[derive(Clone, Copy, PartialEq, Eq, Structural, Debug)]
pub enum ConfigError {
    /// The configured preset path is not valid UTF-8 text.
    InvalidPathEncoding,
    /// The preset file could not be read.
    IoError,
    /// The preset file's contents are not a well-formed configuration document.
    ConfigParseError,
}

impl ConfigError {
    /// A short diagnostic for the error-reporting channel.
    pub fn message(&self) -> (r: &'static str)
        ensures
            *self is InvalidPathEncoding ==> r@ == "invalid preset path encoding"@,
            *self is IoError ==> r@ == "preset file could not be read"@,
            *self is ConfigParseError ==> r@ == "preset file is not a valid configuration"@,
    {
        match self {
            ConfigError::InvalidPathEncoding => "invalid preset path encoding",
            ConfigError::IoError => "preset file could not be read",
            ConfigError::ConfigParseError => "preset file is not a valid configuration",
        }
    }
}

} // verus!
