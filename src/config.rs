use vstd::prelude::*;

verus! {

/// Where the tracked repositories live: the root directory and the names of
/// the repository directories under it, in display order.
#[derive(Debug, Clone, Default)]
pub struct Config {
    pub rootpath: String,
    pub repos: Vec<String>,
}

/// Why the configuration could not be loaded.
#[derive(Debug, Clone, Copy, PartialEq, Eq, Structural)]
pub enum ConfigError {
    /// The configuration file could not be read.
    Missing,
    /// The configuration file is not in the expected shape.
    Malformed,
    /// The configured root directory does not exist.
    RootPathInvalid,
}

impl ConfigError {
    /// A message for the user.
    pub fn message(&self) -> (r: &'static str)
        ensures
            *self == ConfigError::Missing ==> r@ == "Config file missing"@,
            *self == ConfigError::Malformed ==> r@ == "Config file could not be parsed"@,
            *self == ConfigError::RootPathInvalid ==> r@ == "Root path in config doesn't exist"@,
    {
        match self {
            ConfigError::Missing => "Config file missing",
            ConfigError::Malformed => "Config file could not be parsed",
            ConfigError::RootPathInvalid => "Root path in config doesn't exist",
        }
    }
}

/// Accepts a parsed configuration only where its root directory exists;
/// `root_exists` tells whether it does.
pub fn validate_config(config: Config, root_exists: bool) -> (r: Result<Config, ConfigError>)
    ensures
        !root_exists <==> r == Err::<Config, ConfigError>(ConfigError::RootPathInvalid),
        root_exists ==> r == Ok::<Config, ConfigError>(config),
{
    if root_exists {
        Ok(config)
    } else {
        Err(ConfigError::RootPathInvalid)
    }
}

} // verus!
