//! The choice of the text that a client's configuration is read from: the
//! text embedded when the client was built, or the built-in one.

use crate::config_types::BaseConfig;
use vstd::prelude::*;

verus! {

/// The built-in configuration text, used where none was embedded.
pub const DEFAULT_CONFIG_STR: &'static str = r#"
ip = "192.168.1.1"
port = 4433

[keys]
github = "00000000000000000"
travis = "11111111111111111"
"#;

/// How far a build takes its configuration from an embedded text.
#[derive(Clone, Copy, Debug, PartialEq, Eq, Structural)]
pub enum BootstrapMode {
    /// Nothing is embedded: the built-in text is used.
    Disabled,
    /// An embedded text is used where it is not empty.
    Enabled,
    /// The embedded text is used, whatever it holds.
    Required,
}

/// The text that the configuration is read from, as a mathematical value.
pub open spec fn chosen_text(mode: BootstrapMode, embedded: Seq<char>, builtin: Seq<char>) -> Seq<
    char,
> {
    match mode {
        BootstrapMode::Disabled => builtin,
        BootstrapMode::Enabled => if embedded.len() > 0 {
            embedded
        } else {
            builtin
        },
        BootstrapMode::Required => embedded,
    }
}

/// The text that the configuration is read from: `embedded` or `builtin`,
/// as `mode` has it.
pub fn config_text<'a>(mode: BootstrapMode, embedded: &'a str, builtin: &'a str) -> (text: &'a str)
    ensures
        text@ == chosen_text(mode, embedded@, builtin@),
{
    match mode {
        BootstrapMode::Disabled => builtin,
        BootstrapMode::Enabled => if !embedded.is_empty() {
            embedded
        } else {
            builtin
        },
        BootstrapMode::Required => embedded,
    }
}

/// A client's configuration.
#[derive(Clone, Debug, PartialEq)]
pub struct Config(pub BaseConfig);

impl Config {
    /// The configuration inside.
    pub fn as_ref(&self) -> (base: &BaseConfig)
        ensures
            *base == self.0,
    {
        &self.0
    }
}

} // verus!
