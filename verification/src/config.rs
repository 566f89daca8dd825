//! The sensitivity configuration. The configuration collaborator (file
//! probing and parsing) is outside the library; it reports what it found as a
//! [`ConfigSource`], and the library decides which configuration the session
//! runs with: a missing or unreadable configuration falls back to the default
//! and is never fatal.

use vstd::prelude::*;

verus! {

/// The sensitivity applied when no configuration is found or loading fails.
pub const DEFAULT_SENSITIVITY: i32 = 1;

/// The session configuration: the integer multiplier converting raw
/// relative-motion magnitude into steering-position delta.
#[derive(Clone, Copy, PartialEq, Eq, Structural, Debug)]
pub struct Config {
    pub sensitivity: i32,
}

/// What the configuration collaborator found at startup.
#[derive(Clone, Copy, PartialEq, Eq, Structural, Debug)]
pub enum ConfigSource {
    /// No configuration exists.
    Missing,
    /// A configuration exists but could not be loaded.
    Invalid,
    /// A configuration was loaded.
    Loaded(Config),
}

/// The configuration a given source resolves to: the loaded one when loading
/// succeeded, the default otherwise.
pub open spec fn config_of(source: ConfigSource) -> Config {
    match source {
        ConfigSource::Loaded(conf) => conf,
        _ => Config { sensitivity: DEFAULT_SENSITIVITY },
    }
}

impl Default for Config {
    /// The default configuration.
    fn default() -> (c: Self)
        ensures
            c.sensitivity == DEFAULT_SENSITIVITY,
    {
        Config { sensitivity: DEFAULT_SENSITIVITY }
    }
}

/// Resolves what the configuration collaborator found: a loaded configuration
/// is used as is; a missing or unloadable one yields the default.
pub fn load_config(source: ConfigSource) -> (c: Config)
    ensures
        c == config_of(source),
{
    match source {
        ConfigSource::Loaded(conf) => conf,
        ConfigSource::Missing => Config { sensitivity: DEFAULT_SENSITIVITY },
        ConfigSource::Invalid => Config { sensitivity: DEFAULT_SENSITIVITY },
    }
}

} // verus!
