//! Configuration loading of the command-line scaffold.

use vstd::prelude::*;

verus! {

/// Why a configuration could not be loaded.
#[derive(Debug, PartialEq, Eq)]
pub struct ConfigError {
    pub message: String,
}

/// Loads the configuration at `config_path`.
///
/// No configuration format is defined yet, so there is nothing to read and
/// every path is accepted, whether a file exists there or not.
pub fn load_config(config_path: &str) -> (r: Result<(), ConfigError>)
    ensures
        r is Ok,
{
    Ok(())
}

} // verus!
