//! Persisted application settings. Reading and writing them to disk is the
//! caller's concern; the library only holds and derives the values.

use vstd::prelude::*;

verus! {

/// Application settings persisted to disk.
#[derive(Debug, Clone, PartialEq)]
pub struct Settings {
    /// Archive server URL.
    pub server_url: String,
    /// API key for authentication.
    pub api_key: String,
    /// Allow insecure (plain HTTP) connections.
    pub allow_insecure: bool,
}

impl Settings {
    /// An equal copy of the settings.
    pub fn duplicate(&self) -> (r: Settings)
        ensures
            r == *self,
    {
        Settings {
            server_url: self.server_url.clone(),
            api_key: self.api_key.clone(),
            allow_insecure: self.allow_insecure,
        }
    }

    /// The configuration file path under the given configuration directory.
    pub fn config_path(config_dir: &str) -> (r: String)
        ensures
            r@ == config_dir@ + "/config.toml"@,
    {
        config_dir.to_owned().concat("/config.toml")
    }
}

impl Default for Settings {
    /// Empty server URL and API key; insecure connections refused.
    fn default() -> (r: Self)
        ensures
            r.server_url@.len() == 0,
            r.api_key@.len() == 0,
            !r.allow_insecure,
    {
        Settings { server_url: String::new(), api_key: String::new(), allow_insecure: false }
    }
}

} // verus!
