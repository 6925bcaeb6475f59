//! The resolver facades: the holders of their backends, and the strategy by
//! which a lookup goes through them.

use crate::backend::config_servers;
use crate::backend::dual_stack_preference;
use crate::backend::engine_config;
use crate::backend::google_tls_servers;
use crate::backend::new_resolver;
use crate::backend::new_resolver_system;
use crate::backend::Backend;
use crate::backend::BackendRole;
use crate::error::ResolutionError;
use crate::holder::acquire;
use crate::holder::handed_out;
use crate::holder::LazyBackend;
use crate::strategy::start;
use crate::strategy::Lookup;
use crate::strategy::Strategy;
use vstd::prelude::*;

verus! {

/// The backends that a facade has constructed so far.
pub struct FacadeView {
    pub primary: Option<Backend>,
    pub fallback: Option<Backend>,
}

impl FacadeView {
    /// The backend constructed for `role`, if any.
    pub open spec fn slot(self, role: BackendRole) -> Option<Backend> {
        match role {
            BackendRole::Primary => self.primary,
            BackendRole::Fallback => self.fallback,
        }
    }

    /// Whether each backend that was constructed is the one for its role.
    pub open spec fn well_formed(self) -> bool {
        &&& built_for(self.primary, BackendRole::Primary)
        &&& built_for(self.fallback, BackendRole::Fallback)
    }

    /// This facade with `held` in the place of the backend for `role`.
    pub open spec fn with_slot(self, role: BackendRole, held: Option<Backend>) -> FacadeView {
        match role {
            BackendRole::Primary => FacadeView { primary: held, ..self },
            BackendRole::Fallback => FacadeView { fallback: held, ..self },
        }
    }
}

/// Whether `held`, if it is a backend, was built for `role`: its engine's
/// resolver prefers IPv4 first, then IPv6, and the primary's is built on
/// Google's name servers over TLS.
pub open spec fn built_for(held: Option<Backend>, role: BackendRole) -> bool {
    held is Some ==> {
        &&& held->Some_0.role() == role
        &&& held->Some_0.ip_preference() == dual_stack_preference()
        &&& role == BackendRole::Primary ==> config_servers(
            engine_config(*held->Some_0.handle()),
        ) == google_tls_servers()
    }
}

/// A resolver that asks the secure primary backend first, and the system's
/// resolver once the primary has failed. Both backends are constructed on
/// first use, and then kept. A facade is used by one caller at a time:
/// callers that share one take turns.
#[derive(Debug)]
pub struct HickoryDnsResolver {
    state: LazyBackend,
    fallback: LazyBackend,
}

impl View for HickoryDnsResolver {
    type V = FacadeView;

    closed spec fn view(&self) -> FacadeView {
        FacadeView { primary: self.state.value(), fallback: self.fallback.value() }
    }
}

impl HickoryDnsResolver {
    /// A facade that has constructed no backend yet.
    pub fn new() -> (facade: HickoryDnsResolver)
        ensures
            facade@ == (FacadeView { primary: None, fallback: None }),
            facade@.well_formed(),
    {
        HickoryDnsResolver { state: LazyBackend::new(), fallback: LazyBackend::new() }
    }

    /// The strategy of this facade's lookups.
    pub fn strategy(&self) -> (s: Strategy)
        ensures
            s == Strategy::WithFallback,
    {
        Strategy::WithFallback
    }

    /// Whether the backend for `role` has been constructed.
    pub fn is_ready(&self, role: BackendRole) -> (r: bool)
        ensures
            r == self@.slot(role) is Some,
    {
        match role {
            BackendRole::Primary => self.state.is_ready(),
            BackendRole::Fallback => self.fallback.is_ready(),
        }
    }

    /// The backend for `role`, if it has been constructed. Nothing is
    /// constructed, and the facade is left as it is.
    pub fn get(&self, role: BackendRole) -> (r: Option<&Backend>)
        ensures
            r is Some <==> self@.slot(role) is Some,
            r is Some ==> *r->Some_0 == self@.slot(role)->Some_0,
    {
        match role {
            BackendRole::Primary => self.state.get(),
            BackendRole::Fallback => self.fallback.get(),
        }
    }

    /// Begins the resolution of `hostname` through this facade: the lookup
    /// before any backend was asked, for the caller to drive to its end.
    pub fn resolve(&self, hostname: &str) -> (lookup: Lookup)
        ensures
            lookup@ == start(Strategy::WithFallback, hostname@),
    {
        Lookup::new(Strategy::WithFallback, hostname.to_string())
    }

    /// The backend for `role`, constructed now if this is its first use. A
    /// backend that was constructed before is handed out again, and nothing
    /// is constructed. The other backend's holder is left as it is. The
    /// primary backend's construction never fails; the fallback's fails with
    /// a `ConfigError` where the system's configuration cannot be read, and
    /// is then tried again by the next call.
    pub fn backend(&mut self, role: BackendRole) -> (r: Result<&Backend, ResolutionError>)
        ensures
            (final(self)@.slot(role), handed_out(r)) == acquire(
                old(self)@.slot(role),
                handed_out(r),
            ),
            final(self)@ == old(self)@.with_slot(role, final(self)@.slot(role)),
            r is Err ==> r->Err_0 is ConfigError,
            role == BackendRole::Primary ==> r is Ok,
            old(self)@.well_formed() ==> final(self)@.well_formed() && built_for(
                handed_out(r).ok(),
                role,
            ),
    {
        match role {
            BackendRole::Primary => self.state.get_or_try_init(new_resolver),
            BackendRole::Fallback => self.fallback.get_or_try_init(new_resolver_system),
        }
    }
}

impl Default for HickoryDnsResolver {
    /// A facade that has constructed no backend yet.
    fn default() -> (facade: HickoryDnsResolver)
        ensures
            facade@ == (FacadeView { primary: None, fallback: None }),
            facade@.well_formed(),
    {
        HickoryDnsResolver::new()
    }
}

/// A resolver that asks the secure primary backend, and no other: the
/// primary's answer or failure is what the caller gets. The backend is
/// constructed on first use, and then kept. A facade is used by one caller at
/// a time: callers that share one take turns.
#[derive(Debug)]
pub struct HickoryDnsResolver1 {
    state: LazyBackend,
}

impl View for HickoryDnsResolver1 {
    type V = FacadeView;

    closed spec fn view(&self) -> FacadeView {
        FacadeView { primary: self.state.value(), fallback: None }
    }
}

impl HickoryDnsResolver1 {
    /// A facade that has not constructed its backend yet.
    pub fn new() -> (facade: HickoryDnsResolver1)
        ensures
            facade@ == (FacadeView { primary: None, fallback: None }),
            facade@.well_formed(),
    {
        HickoryDnsResolver1 { state: LazyBackend::new() }
    }

    /// The strategy of this facade's lookups.
    pub fn strategy(&self) -> (s: Strategy)
        ensures
            s == Strategy::NoFallback,
    {
        Strategy::NoFallback
    }

    /// Whether the backend has been constructed.
    pub fn is_ready(&self) -> (r: bool)
        ensures
            r == self@.primary is Some,
    {
        self.state.is_ready()
    }

    /// The backend, if it has been constructed. Nothing is constructed, and
    /// the facade is left as it is.
    pub fn get(&self) -> (r: Option<&Backend>)
        ensures
            r is Some <==> self@.primary is Some,
            r is Some ==> *r->Some_0 == self@.primary->Some_0,
    {
        self.state.get()
    }

    /// Begins the resolution of `hostname` through this facade: the lookup
    /// before the backend was asked, for the caller to drive to its end.
    pub fn resolve(&self, hostname: &str) -> (lookup: Lookup)
        ensures
            lookup@ == start(Strategy::NoFallback, hostname@),
    {
        Lookup::new(Strategy::NoFallback, hostname.to_string())
    }

    /// The backend, constructed now if this is its first use. A backend that
    /// was constructed before is handed out again, and nothing is
    /// constructed. Its construction never fails.
    pub fn backend(&mut self) -> (r: Result<&Backend, ResolutionError>)
        ensures
            r is Ok,
            (final(self)@.primary, handed_out(r)) == acquire(old(self)@.primary, handed_out(r)),
            final(self)@.fallback is None,
            old(self)@.well_formed() ==> final(self)@.well_formed() && built_for(
                handed_out(r).ok(),
                BackendRole::Primary,
            ),
    {
        self.state.get_or_try_init(new_resolver)
    }
}

impl Default for HickoryDnsResolver1 {
    /// A facade that has not constructed its backend yet.
    fn default() -> (facade: HickoryDnsResolver1)
        ensures
            facade@ == (FacadeView { primary: None, fallback: None }),
            facade@.well_formed(),
    {
        HickoryDnsResolver1::new()
    }
}

} // verus!
