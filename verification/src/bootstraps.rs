//! The configuration that a client starts from where none was given to it.

use crate::config_types::BaseConfig;
use crate::config_types::Keys;
use crate::config_types::PacketType;
use crate::config_types::Timeout;
use vstd::prelude::*;

verus! {

/// Whether `base` is the built-in configuration: what the text
/// `config_types::DEFAULT_CONFIG_TOML_STR` spells.
pub open spec fn is_builtin(base: BaseConfig) -> bool {
    &&& base.ip@ == "192.168.1.1"@
    &&& base.port == Some(4433u16)
    &&& base.keys.github@ == "00000000000000000"@
    &&& base.keys.travis is Some
    &&& base.keys.travis->Some_0@ == "11111111111111111"@
    &&& base.keys.packet_type == PacketType::Mix
    &&& base.keys.endpoint@.len() == 1
    &&& base.keys.endpoint@[0]@ == "https://example.com/api/"@
    &&& base.keys.timeout == (Timeout { secs: 60, nanos: 0 })
    &&& base.keys.recipient is None
    &&& base.keys.number == 10
}

/// A client's configuration.
#[derive(Clone, Debug, PartialEq)]
pub struct Config(pub BaseConfig);

impl Config {
    /// The configuration inside.
    pub fn as_ref(&self) -> (base: &BaseConfig)
        ensures
            *base == self.0,
    {
        &self.0
    }
}

impl Default for Config {
    /// The built-in configuration.
    fn default() -> (config: Config)
        ensures
            is_builtin(config.0),
    {
        let mut endpoint: Vec<String> = Vec::new();
        endpoint.push("https://example.com/api/".to_string());
        Config(
            BaseConfig {
                ip: "192.168.1.1".to_string(),
                port: Some(4433),
                keys: Keys {
                    github: "00000000000000000".to_string(),
                    travis: Some("11111111111111111".to_string()),
                    packet_type: PacketType::Mix,
                    endpoint,
                    timeout: Timeout::from_secs(60),
                    recipient: None,
                    number: 10,
                },
            },
        )
    }
}

} // verus!
