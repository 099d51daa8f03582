//! The bot's configuration: where it listens and where it stores its files.

use vstd::prelude::*;

verus! {

/// The whole configuration.
#[derive(Debug, Clone, PartialEq, Eq)]
pub struct Config {
    pub server: ServerConfig,
    pub storage: StorageConfig,
}

/// Paths of the stored files.
#[derive(Debug, Clone, PartialEq, Eq)]
pub struct StorageConfig {
    pub tokens: String,
    pub bot: String,
    pub channels: String,
}

/// The webhook server's IPv4 address, as its four octets, and port.
#[derive(Debug, Clone, Copy, PartialEq, Eq)]
pub struct ServerConfig {
    pub host: [u8; 4],
    pub port: u16,
}

} // verus!
