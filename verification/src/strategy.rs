//! One lookup as a state machine: the primary backend is tried first, the
//! fallback backend only once the primary has failed, and exactly one
//! backend's answer is what the caller gets.

use crate::addr::socket_addrs;
use crate::addr::to_socket_addrs;
use crate::addr::IpAddress;
use crate::addr::SocketAddress;
use crate::addr::SocketAddrs;
use crate::backend::BackendRole;
use crate::error::ResolutionError;
use hickory_resolver::ResolveError;
use vstd::prelude::*;

verus! {

/// The port that resolved addresses carry, until the HTTP client puts the one
/// it connects to in its place.
pub const PLACEHOLDER_PORT: u16 = 0;

/// Whether a failed primary backend is followed by the fallback backend.
#[derive(Clone, Copy, Debug, PartialEq, Eq, Structural)]
pub enum Strategy {
    /// A failure of the primary backend leads to one attempt on the fallback.
    WithFallback,
    /// The primary backend's answer is final, whatever it is.
    NoFallback,
}

/// Where a lookup stands, as a mathematical value.
pub enum Phase {
    /// The primary backend is to be asked.
    TryPrimary,
    /// The primary backend has failed; the fallback backend is to be asked.
    TryFallback,
    /// A backend answered with these socket addresses.
    Resolved(Seq<SocketAddress>),
    /// The last backend that was asked failed with this error.
    Failed(ResolutionError),
}

/// A lookup as a mathematical value.
pub struct LookupView {
    pub strategy: Strategy,
    pub hostname: Seq<char>,
    pub phase: Phase,
    /// The primary backend's error, kept for the record once it has led to
    /// the fallback.
    pub primary_failure: Option<ResolutionError>,
}

/// What one attempt on a backend gave, as a mathematical value.
pub type Outcome = Result<Seq<IpAddress>, ResolutionError>;

/// A lookup of `hostname` that has asked no backend yet.
pub open spec fn start(strategy: Strategy, hostname: Seq<char>) -> LookupView {
    LookupView { strategy, hostname, phase: Phase::TryPrimary, primary_failure: None }
}

/// The backend that a lookup in phase `phase` asks next, if any.
pub open spec fn asks(phase: Phase) -> Option<BackendRole> {
    match phase {
        Phase::TryPrimary => Some(BackendRole::Primary),
        Phase::TryFallback => Some(BackendRole::Fallback),
        Phase::Resolved(_) => None,
        Phase::Failed(_) => None,
    }
}

/// The lookup after the backend it asked has given `outcome`. An answer
/// resolves the lookup with the answer's addresses, in the backend's order, on
/// the placeholder port. A failure of the primary leads to the fallback where
/// the strategy has one, and is kept for the record; any other failure is
/// final. A lookup that has ended stays as it is.
pub open spec fn step(lookup: LookupView, outcome: Outcome) -> LookupView {
    match lookup.phase {
        Phase::TryPrimary => match outcome {
            Ok(ips) => LookupView {
                phase: Phase::Resolved(socket_addrs(ips, PLACEHOLDER_PORT)),
                ..lookup
            },
            Err(e) => match lookup.strategy {
                Strategy::WithFallback => LookupView {
                    phase: Phase::TryFallback,
                    primary_failure: Some(e),
                    ..lookup
                },
                Strategy::NoFallback => LookupView { phase: Phase::Failed(e), ..lookup },
            },
        },
        Phase::TryFallback => match outcome {
            Ok(ips) => LookupView {
                phase: Phase::Resolved(socket_addrs(ips, PLACEHOLDER_PORT)),
                ..lookup
            },
            Err(e) => LookupView { phase: Phase::Failed(e), ..lookup },
        },
        Phase::Resolved(_) => lookup,
        Phase::Failed(_) => lookup,
    }
}

/// What the caller of a lookup in phase `phase` gets: nothing while a backend
/// is still to be asked.
pub open spec fn answer(phase: Phase) -> Option<Result<Seq<SocketAddress>, ResolutionError>> {
    match phase {
        Phase::TryPrimary => None,
        Phase::TryFallback => None,
        Phase::Resolved(addrs) => Some(Ok(addrs)),
        Phase::Failed(e) => Some(Err(e)),
    }
}

/// What one attempt on a backend gave.
pub open spec fn outcome_view(outcome: Result<Vec<IpAddress>, ResolutionError>) -> Outcome {
    match outcome {
        Ok(ips) => Ok(ips@),
        Err(e) => Err(e),
    }
}

/// What a backend's lookup gave, as the outcome of the attempt on that
/// backend: its addresses, or a `LookupError` with the engine's error.
pub open spec fn found_outcome(found: Result<Seq<IpAddress>, ResolveError>) -> Outcome {
    match found {
        Ok(ips) => Ok(ips),
        Err(e) => Err(ResolutionError::LookupError(e)),
    }
}

/// What the caller of a lookup got.
pub open spec fn answer_view(r: Option<Result<SocketAddrs, ResolutionError>>) -> Option<
    Result<Seq<SocketAddress>, ResolutionError>,
> {
    match r {
        Some(Ok(addrs)) => Some(Ok(addrs.remaining())),
        Some(Err(e)) => Some(Err(e)),
        None => None,
    }
}

/// The record of a primary backend that failed and was followed by the
/// fallback: the name that was looked up, and the primary's error.
#[derive(Clone, Copy, Debug)]
pub struct PrimaryFailure<'a> {
    pub hostname: &'a str,
    pub error: &'a ResolutionError,
}

/// Turns what a backend's lookup gave into the outcome of the attempt on that
/// backend: the addresses as they are, the engine's error as a `LookupError`.
pub fn lookup_outcome(found: Result<Vec<IpAddress>, ResolveError>) -> (outcome: Result<
    Vec<IpAddress>,
    ResolutionError,
>)
    ensures
        found is Ok ==> outcome == Ok::<Vec<IpAddress>, ResolutionError>(found->Ok_0),
        found is Err ==> outcome == Err::<Vec<IpAddress>, ResolutionError>(
            ResolutionError::LookupError(found->Err_0),
        ),
{
    match found {
        Ok(ips) => Ok(ips),
        Err(e) => Err(ResolutionError::LookupError(e)),
    }
}

#[derive(Debug)]
enum State {
    TryPrimary,
    TryFallback,
    Resolved(Vec<IpAddress>),
    Failed(ResolutionError),
}

/// One lookup of one name.
#[derive(Debug)]
pub struct Lookup {
    strategy: Strategy,
    hostname: String,
    state: State,
    primary_failure: Option<ResolutionError>,
}

impl View for Lookup {
    type V = LookupView;

    closed spec fn view(&self) -> LookupView {
        LookupView {
            strategy: self.strategy,
            hostname: self.hostname@,
            phase: match self.state {
                State::TryPrimary => Phase::TryPrimary,
                State::TryFallback => Phase::TryFallback,
                State::Resolved(ips) => Phase::Resolved(socket_addrs(ips@, PLACEHOLDER_PORT)),
                State::Failed(e) => Phase::Failed(e),
            },
            primary_failure: self.primary_failure,
        }
    }
}

impl Lookup {
    /// A lookup of `hostname` that has asked no backend yet.
    pub fn new(strategy: Strategy, hostname: String) -> (lookup: Lookup)
        ensures
            lookup@ == start(strategy, hostname@),
    {
        Lookup { strategy, hostname, state: State::TryPrimary, primary_failure: None }
    }

    /// The strategy of this lookup.
    pub fn strategy(&self) -> (s: Strategy)
        ensures
            s == self@.strategy,
    {
        self.strategy
    }

    /// The name that is looked up.
    pub fn hostname(&self) -> (name: &str)
        ensures
            name@ == self@.hostname,
    {
        self.hostname.as_str()
    }

    /// The backend to ask next, or `None` once the lookup has ended.
    pub fn pending(&self) -> (role: Option<BackendRole>)
        ensures
            role == asks(self@.phase),
    {
        match &self.state {
            State::TryPrimary => Some(BackendRole::Primary),
            State::TryFallback => Some(BackendRole::Fallback),
            State::Resolved(_) => None,
            State::Failed(_) => None,
        }
    }

    /// The lookup after the backend it asked gave `outcome`.
    pub fn advance(self, outcome: Result<Vec<IpAddress>, ResolutionError>) -> (next: Lookup)
        ensures
            next@ == step(self@, outcome_view(outcome)),
    {
        let Lookup { strategy, hostname, state, primary_failure } = self;
        match state {
            State::TryPrimary => match outcome {
                Ok(ips) => Lookup { strategy, hostname, state: State::Resolved(ips), primary_failure },
                Err(e) => match strategy {
                    Strategy::WithFallback => Lookup {
                        strategy,
                        hostname,
                        state: State::TryFallback,
                        primary_failure: Some(e),
                    },
                    Strategy::NoFallback => Lookup {
                        strategy,
                        hostname,
                        state: State::Failed(e),
                        primary_failure,
                    },
                },
            },
            State::TryFallback => match outcome {
                Ok(ips) => Lookup { strategy, hostname, state: State::Resolved(ips), primary_failure },
                Err(e) => Lookup { strategy, hostname, state: State::Failed(e), primary_failure },
            },
            State::Resolved(ips) => Lookup {
                strategy,
                hostname,
                state: State::Resolved(ips),
                primary_failure,
            },
            State::Failed(e) => Lookup { strategy, hostname, state: State::Failed(e), primary_failure },
        }
    }

    /// The record of the primary backend's failure, once it has led to the
    /// fallback.
    pub fn primary_failure(&self) -> (record: Option<PrimaryFailure<'_>>)
        ensures
            record is Some <==> self@.primary_failure is Some,
            record is Some ==> record->Some_0.hostname@ == self@.hostname
                && *record->Some_0.error == self@.primary_failure->Some_0,
    {
        match &self.primary_failure {
            Some(e) => Some(PrimaryFailure { hostname: self.hostname.as_str(), error: e }),
            None => None,
        }
    }

    /// What the caller gets: the socket addresses of the backend that
    /// answered, the error of the backend that was asked last, or `None`
    /// while a backend is still to be asked.
    pub fn finish(self) -> (r: Option<Result<SocketAddrs, ResolutionError>>)
        ensures
            answer_view(r) == answer(self@.phase),
    {
        match self.state {
            State::TryPrimary => None,
            State::TryFallback => None,
            State::Resolved(ips) => Some(Ok(to_socket_addrs(ips, PLACEHOLDER_PORT))),
            State::Failed(e) => Some(Err(e)),
        }
    }
}

} // verus!
