//! Why a resolution failed.

use hickory_resolver::ResolveError;
use vstd::prelude::*;

verus! {

/// The resolver engine's error, carried through as an opaque value.
#[verifier::external_type_specification]
#[verifier::external_body]
pub struct ExResolveError(ResolveError);

/// What a failed backend construction reports, whatever the underlying cause.
pub const SYSTEM_CONF_MESSAGE: &'static str = "error reading DNS system conf for hickory-dns";

/// A failed resolution, with the engine's error that caused it.
#[derive(Debug)]
pub enum ResolutionError {
    /// A backend could not be constructed from its configuration.
    ConfigError(ResolveError),
    /// A backend was constructed, and its lookup of the name failed.
    LookupError(ResolveError),
}

impl ResolutionError {
    /// The engine's error behind this failure.
    pub open spec fn cause(self) -> ResolveError {
        match self {
            ResolutionError::ConfigError(e) => e,
            ResolutionError::LookupError(e) => e,
        }
    }

    /// Whether a backend's construction failed, rather than its lookup.
    pub fn is_config_error(&self) -> (r: bool)
        ensures
            r == (*self is ConfigError),
    {
        match self {
            ResolutionError::ConfigError(_) => true,
            ResolutionError::LookupError(_) => false,
        }
    }

    /// The engine's error behind this failure.
    pub fn source(&self) -> (e: &ResolveError)
        ensures
            *e == self.cause(),
    {
        match self {
            ResolutionError::ConfigError(e) => e,
            ResolutionError::LookupError(e) => e,
        }
    }

    /// The text shown for this failure: a fixed sentence for a construction
    /// failure, the engine's own text for a failed lookup.
    pub fn message(&self) -> (text: String)
        ensures
            *self is ConfigError ==> text@ == SYSTEM_CONF_MESSAGE@,
            *self is LookupError ==> vstd::string::to_string_from_display_ensures::<ResolveError>(
                &self.cause(),
                text,
            ),
    {
        match self {
            ResolutionError::ConfigError(_) => SYSTEM_CONF_MESSAGE.to_string(),
            ResolutionError::LookupError(e) => e.to_string(),
        }
    }
}

} // verus!
