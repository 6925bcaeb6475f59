//! Name resolution for an HTTP client: a secure primary resolver backend, and
//! the system's resolver as the fallback once the primary has failed.
//!
//! - [`addr`]: addresses as plain values, and their pairing with a port.
//! - [`error`]: why a resolution failed.
//! - [`backend`]: the construction of the two backends.
//! - [`holder`]: the holder that constructs a backend on first use.
//! - [`strategy`]: one lookup as a state machine over the backends' outcomes.
//! - [`resolver`]: the facades that hold the backends.
//! - [`laws`]: what holds of every lookup through a facade.
//! - [`config_types`], [`bootstraps`], [`bootstraps2`]: a client's
//!   configuration, and the one it starts from.
//!
//! A lookup is driven by its caller, who alone can await a backend: the
//! caller takes a [`strategy::Lookup`] from a facade, asks the facade for the
//! backend that the lookup names, awaits that backend's answer, and hands the
//! outcome back to the lookup, until the lookup names no backend any more.

pub mod addr;
pub mod backend;
pub mod bootstraps;
pub mod bootstraps2;
pub mod config_types;
pub mod error;
pub mod holder;
pub mod laws;
pub mod resolver;
pub mod strategy;
