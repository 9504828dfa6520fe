//! The command line of the server binary, as plain values.

use vstd::prelude::*;

verus! {

/// What the binary is asked to do.
#[derive(Debug, Clone)]
pub enum Args {
    /// Start a Hiqlite server.
    Serve(ArgsConfig),
    /// Start a Hiqlite proxy, which acts as a single connection point for a
    /// remote client and load-balances requests to all cluster nodes.
    Proxy(ArgsProxy),
    /// Generate a new default config with safe values for testing.
    GenerateConfig(ArgsGenerate),
}

/// Arguments of `serve`.
#[derive(Debug, Clone)]
pub struct ArgsConfig {
    /// Overwrites the node id of the config file.
    pub node_id: Option<u64>,
    /// The config file to read (`$HOME/.hiqlite/config` by default).
    pub config_file: String,
    /// Enables SQL statement logging.
    pub log_statements: Option<bool>,
    /// The server log level (`info` by default).
    pub log_level: LogLevel,
}

/// Arguments of `proxy`.
#[derive(Debug, Clone)]
pub struct ArgsProxy {
    /// The config file to read (`$HOME/.hiqlite/config` by default).
    pub config_file: String,
    /// The server log level (`info` by default).
    pub log_level: LogLevel,
}

/// Arguments of `generate-config`.
#[derive(Debug, Clone)]
pub struct ArgsGenerate {
    /// The password for the dashboard.
    pub password: Option<String>,
    /// Issue insecure authn cookies for the dashboard. Do NOT use in
    /// production!
    pub insecure_cookie: bool,
}

/// The server log level.
#[derive(Debug, Clone, Copy, PartialEq, Eq, Structural)]
pub enum LogLevel {
    Info,
    Warn,
    Error,
}

/// The name of a log level.
pub open spec fn log_level_name(l: LogLevel) -> Seq<char> {
    match l {
        LogLevel::Info => "info"@,
        LogLevel::Warn => "warn"@,
        LogLevel::Error => "error"@,
    }
}

impl LogLevel {
    /// The lowercase name of the level.
    pub fn as_str(&self) -> (r: &str)
        ensures
            r@ == log_level_name(*self),
    {
        match self {
            LogLevel::Info => "info",
            LogLevel::Warn => "warn",
            LogLevel::Error => "error",
        }
    }
}

} // verus!
