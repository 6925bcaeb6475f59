//! The bootstrap configuration of a client, as plain values.

use vstd::prelude::*;

verus! {

/// How packets are sent.
#[derive(Clone, Copy, Debug, PartialEq, Eq, Structural)]
pub enum PacketType {
    Mix,
    Raw,
}

impl Default for PacketType {
    fn default() -> (p: PacketType)
        ensures
            p == PacketType::Mix,
    {
        PacketType::Mix
    }
}

/// A recipient. It carries nothing yet.
#[derive(Clone, Copy, Debug, PartialEq, Eq, Structural)]
pub struct Recv {}

impl Default for Recv {
    fn default() -> (r: Recv)
        ensures
            r == (Recv {  }),
    {
        Recv {  }
    }
}

/// A span of time: whole seconds, and nanoseconds on top of them.
#[derive(Clone, Copy, Debug, PartialEq, Eq, Structural)]
pub struct Timeout {
    pub secs: u64,
    pub nanos: u32,
}

impl Timeout {
    /// A span of `secs` whole seconds.
    pub fn from_secs(secs: u64) -> (t: Timeout)
        ensures
            t == (Timeout { secs, nanos: 0 }),
    {
        Timeout { secs, nanos: 0 }
    }
}

/// The keys and endpoints of a client.
#[derive(Clone, Debug, PartialEq)]
pub struct Keys {
    pub github: String,
    pub travis: Option<String>,
    pub packet_type: PacketType,
    /// The endpoints, each an absolute URL as text.
    pub endpoint: Vec<String>,
    pub timeout: Timeout,
    pub recipient: Option<Recv>,
    pub number: usize,
}

impl Keys {
    /// Whether these are the keys that nothing was set in.
    pub open spec fn is_blank(self) -> bool {
        &&& self.github@ == Seq::<char>::empty()
        &&& self.travis is None
        &&& self.packet_type == PacketType::Mix
        &&& self.endpoint@ == Seq::<String>::empty()
        &&& self.timeout == (Timeout { secs: 0, nanos: 0 })
        &&& self.recipient is None
        &&& self.number == 0
    }
}

impl Default for Keys {
    fn default() -> (k: Keys)
        ensures
            k.is_blank(),
    {
        Keys {
            github: String::new(),
            travis: None,
            packet_type: PacketType::Mix,
            endpoint: Vec::new(),
            timeout: Timeout { secs: 0, nanos: 0 },
            recipient: None,
            number: 0,
        }
    }
}

/// The built-in configuration, as the TOML text that it is kept in.
pub const DEFAULT_CONFIG_TOML_STR: &'static str = r#"
ip = "192.168.1.1"
port = 4433

[keys]
github = "00000000000000000"
travis = "11111111111111111"
packet_type = "Mix"
endpoint = ["https://example.com/api/"]
timeout = "60s"
number=10
"#;

/// Where a client connects to, and with which keys.
#[derive(Clone, Debug, PartialEq)]
pub struct BaseConfig {
    pub ip: String,
    pub port: Option<u16>,
    pub keys: Keys,
}

} // verus!
