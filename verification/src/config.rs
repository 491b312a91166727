//! The configuration of a node, and where it is kept.
use vstd::prelude::*;
use vstd::string::*;
use crate::identity::{Identity, UserCredentials};
use crate::path_manager::Platform;

verus! {

/// The port on which a node listens unless told otherwise.
pub const DEFAULT_PORT: u16 = 5000;

/// The number of peers that a node accepts unless told otherwise.
pub const DEFAULT_MAX_PEERS: usize = 10;

/// The settings of a node.
#[derive(Debug)]
pub struct Config {
    pub identity: Identity,
    pub default_port: u16,
    pub auto_accept_connections: bool,
    pub max_peers: usize,
    pub log_level: String,
}

/// Why no place for the configuration was found.
#[derive(Debug, Clone, Copy, PartialEq, Eq, Structural)]
pub enum ConfigError {
    /// Neither a configuration directory nor a home directory is known.
    NoDirectory,
}

/// The view of an optional text.
pub open spec fn place_view(place: Option<&str>) -> Option<Seq<char>> {
    match place {
        Some(p) => Some(p@),
        None => None,
    }
}

/// The view of the outcome of looking for a place.
pub open spec fn found_view(found: Result<String, ConfigError>) -> Result<Seq<char>, ConfigError> {
    match found {
        Ok(p) => Ok(p@),
        Err(e) => Err(e),
    }
}

/// The directory of the configuration: `rustalk` under the platform's
/// configuration directory, or else under the home directory
/// `AppData/Local/rustalk` on Windows and `.rustalk` elsewhere.
pub open spec fn config_dir_spec(
    platform: Platform,
    config_home: Option<Seq<char>>,
    home: Option<Seq<char>>,
) -> Result<Seq<char>, ConfigError> {
    match config_home {
        Some(dir) => Ok(dir + "/rustalk"@),
        None => match home {
            Some(dir) => match platform {
                Platform::Windows => Ok(dir + "/AppData/Local/rustalk"@),
                _ => Ok(dir + "/.rustalk"@),
            },
            None => Err(ConfigError::NoDirectory),
        },
    }
}

/// The file of the configuration: `config.json` in its directory.
pub open spec fn config_file_spec(
    platform: Platform,
    config_home: Option<Seq<char>>,
    home: Option<Seq<char>>,
) -> Result<Seq<char>, ConfigError> {
    match config_dir_spec(platform, config_home, home) {
        Ok(dir) => Ok(dir + "/config.json"@),
        Err(e) => Err(e),
    }
}

impl Config {
    /// The default settings for `identity`.
    pub fn new(identity: Identity) -> (config: Config)
        ensures
            config.identity == identity,
            config.default_port == DEFAULT_PORT,
            !config.auto_accept_connections,
            config.max_peers == DEFAULT_MAX_PEERS,
            config.log_level@ == "info"@,
    {
        Config {
            identity,
            default_port: DEFAULT_PORT,
            auto_accept_connections: false,
            max_peers: DEFAULT_MAX_PEERS,
            log_level: "info".to_string(),
        }
    }
}

impl Default for Config {
    /// The default settings for a new identity of an anonymous user.
    fn default() -> (config: Config)
        ensures
            config.identity.email@ == "anonymous@rustalk.local"@,
            config.identity.display_name is None,
            config.identity.has_valid_keys(),
            config.identity.password_matches("default"@),
            config.default_port == DEFAULT_PORT,
            !config.auto_accept_connections,
            config.max_peers == DEFAULT_MAX_PEERS,
            config.log_level@ == "info"@,
    {
        let credentials = UserCredentials {
            email: "anonymous@rustalk.local".to_string(),
            password: "default".to_string(),
        };
        match Identity::new(credentials) {
            Ok(identity) => Config::new(identity),
            Err(_) => vstd::pervasive::unreached(),
        }
    }
}

/// The directory of the configuration, given the platform, and its
/// configuration directory and the home directory as far as they are known.
pub fn get_config_dir(platform: Platform, config_home: Option<&str>, home: Option<&str>) -> (dir:
    Result<String, ConfigError>)
    ensures
        found_view(dir) == config_dir_spec(platform, place_view(config_home), place_view(home)),
{
    match config_home {
        Some(base) => Ok(base.to_string().concat("/rustalk")),
        None => match home {
            Some(base) => match platform {
                Platform::Windows => Ok(base.to_string().concat("/AppData/Local/rustalk")),
                _ => Ok(base.to_string().concat("/.rustalk")),
            },
            None => Err(ConfigError::NoDirectory),
        },
    }
}

/// The file of the configuration, given the same platform and directories.
pub fn get_config_file(platform: Platform, config_home: Option<&str>, home: Option<&str>) -> (file:
    Result<String, ConfigError>)
    ensures
        found_view(file) == config_file_spec(platform, place_view(config_home), place_view(home)),
{
    match get_config_dir(platform, config_home, home) {
        Ok(dir) => Ok(dir.concat("/config.json")),
        Err(e) => Err(e),
    }
}

} // verus!
