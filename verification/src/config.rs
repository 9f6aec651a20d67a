//! Plugin configuration: the port of the server to report to.

use vstd::prelude::*;

verus! {

/// Port used when the configuration does not name a usable one.
pub const DEFAULT_RPC_PORT: u16 = 50051;

/// Settings of one bridge instance.
#[derive(Debug, Clone, Copy, PartialEq, Eq, Structural)]
pub struct Config {
    /// Port of the server to connect to.
    pub rpc_port: u16,
}

/// The port a configuration falls back to.
pub fn default_rpc_port() -> (port: u16)
    ensures
        port == DEFAULT_RPC_PORT,
{
    DEFAULT_RPC_PORT
}

/// The port that a raw `rpc_port` setting resolves to: the setting itself
/// when it is present and fits sixteen unsigned bits, the default otherwise.
pub open spec fn resolved_port(setting: Option<i64>) -> u16 {
    match setting {
        Some(value) if 0 <= value <= u16::MAX => value as u16,
        _ => DEFAULT_RPC_PORT,
    }
}

impl Default for Config {
    fn default() -> (config: Self)
        ensures
            config.rpc_port == DEFAULT_RPC_PORT,
    {
        Config { rpc_port: default_rpc_port() }
    }
}

impl Config {
    /// Builds the configuration from the raw value of the `rpc_port` option.
    ///
    /// A missing option and a value that is no valid port both give the
    /// default port: a malformed configuration never fails.
    pub fn resolve(setting: Option<i64>) -> (config: Self)
        ensures
            config.rpc_port == resolved_port(setting),
    {
        match setting {
            Some(value) => {
                if 0 <= value && value <= 65535 {
                    Config { rpc_port: value as u16 }
                } else {
                    Config::default()
                }
            },
            None => Config::default(),
        }
    }
}

} // verus!
