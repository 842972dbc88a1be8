//! The configuration record and its defaults.

use vstd::prelude::*;

verus! {

/// The version that a fresh configuration carries.
pub const DEFAULT_VERSION: u8 = 3;

/// The API key that a fresh configuration carries.
pub open spec fn default_api_key() -> Seq<char> {
    "default"@
}

/// The configuration of the tool: the version of the record's layout and
/// the key for the remote API.
#[derive(Debug)]
pub struct Config {
    pub version: u8,
    pub api_key: String,
}

impl Default for Config {
    /// The record to use where none was stored. It is made from constants
    /// alone, the same on every call.
    fn default() -> (config: Config)
        ensures
            config.version == DEFAULT_VERSION,
            config.api_key@ == default_api_key(),
    {
        Config { version: DEFAULT_VERSION, api_key: String::from_str("default") }
    }
}

} // verus!
