//! Server configuration.

use vstd::prelude::*;

verus! {

/// Path of the serial device where the configuration names none.
pub const DEFAULT_DEVICE_PATH: &'static str = "/dev/ttyACM0";

/// Name of the file that holds the configuration.
pub const CONFIG_FILE: &'static str = "brewmeister.toml";

/// Server configuration.
#[derive(Clone, Debug, PartialEq, Eq)]
pub struct Config {
    /// Path to the brewslave device. By default this is /dev/ttyACM0.
    pub device: String,
    /// Where the database is, if it is not to be kept in memory.
    pub database: Option<String>,
}

impl Default for Config {
    /// The configuration used where there is no file: the default device,
    /// the database in memory.
    fn default() -> (config: Config)
        ensures
            config.device@ == DEFAULT_DEVICE_PATH@,
            config.database is None,
    {
        Config { device: DEFAULT_DEVICE_PATH.to_owned(), database: None }
    }
}

impl Config {
    /// The configuration that the settings found in a file make up. Where
    /// the file names no device, the default device is used.
    pub fn new(device: Option<String>, database: Option<String>) -> (config: Config)
        ensures
            config.device@ == (match device {
                Some(path) => path@,
                None => DEFAULT_DEVICE_PATH@,
            }),
            config.database == database,
    {
        match device {
            Some(path) => Config { device: path, database },
            None => Config { device: DEFAULT_DEVICE_PATH.to_owned(), database },
        }
    }
}

} // verus!
