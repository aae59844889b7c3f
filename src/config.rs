//! Settings read at start-up.

use vstd::prelude::*;

verus! {

/// The application's name, also the name of its folder among the user's settings.
pub const APP_NAME: &'static str = "Weblib";

/// The settings file, inside the application's folder.
pub const CONFIG_FILE_NAME: &'static str = "config.toml";

/// The start-up settings: the vault opened right away, if one was chosen before.
pub struct Config {
    pub vault_path: Option<String>,
}

impl Default for Config {
    /// No settings: the session starts at the prompt for a vault.
    fn default() -> (r: Config)
        ensures
            r.vault_path is None,
    {
        Config { vault_path: None }
    }
}

} // verus!
