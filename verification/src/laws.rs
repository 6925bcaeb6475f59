//! What holds of every lookup through a facade, whatever the backends do.

use crate::addr::socket_addrs;
use crate::addr::IpAddress;
use crate::backend::Backend;
use crate::backend::BackendRole;
use crate::error::ResolutionError;
use crate::holder::acquire;
use crate::resolver::FacadeView;
use crate::strategy::answer;
use crate::strategy::asks;
use crate::strategy::found_outcome;
use crate::strategy::start;
use crate::strategy::step;
use crate::strategy::LookupView;
use crate::strategy::Outcome;
use crate::strategy::Strategy;
use crate::strategy::PLACEHOLDER_PORT;
use hickory_resolver::ResolveError;
use vstd::prelude::*;

verus! {

/// What the world outside gives a lookup that turns to one backend: what
/// constructing the backend gives, and what the backend's lookup of the name
/// gives once there is a backend.
pub struct BackendWorld {
    pub built: Result<Backend, ResolutionError>,
    pub found: Result<Seq<IpAddress>, ResolveError>,
}

/// One attempt on a backend whose holder has `held`: the holder afterwards,
/// and the outcome of the attempt. The backend is taken from the holder, or
/// constructed into it; a failed construction is the outcome, else the
/// backend's lookup is.
pub open spec fn attempt(held: Option<Backend>, world: BackendWorld) -> (Option<Backend>, Outcome) {
    let (kept, got) = acquire(held, world.built);
    match got {
        Ok(_) => (kept, found_outcome(world.found)),
        Err(e) => (kept, Err(e)),
    }
}

/// One whole lookup of `hostname` through a facade: the facade afterwards, and
/// the lookup at its end. The primary backend is attempted; the fallback
/// backend is attempted after it only where the lookup then asks for it.
pub open spec fn resolve(
    facade: FacadeView,
    strategy: Strategy,
    hostname: Seq<char>,
    primary: BackendWorld,
    fallback: BackendWorld,
) -> (FacadeView, LookupView) {
    let (kept_primary, first) = attempt(facade.primary, primary);
    let after_primary = FacadeView { primary: kept_primary, ..facade };
    let tried_primary = step(start(strategy, hostname), first);
    if asks(tried_primary.phase) == Some(BackendRole::Fallback) {
        let (kept_fallback, second) = attempt(facade.fallback, fallback);
        (FacadeView { fallback: kept_fallback, ..after_primary }, step(tried_primary, second))
    } else {
        (after_primary, tried_primary)
    }
}

/// What a holder has after callers asked it for its backend one after the
/// other, and what each of them got, where `built[i]` is what constructing
/// the backend would give the caller at place `i`.
pub open spec fn acquire_in_turn(
    held: Option<Backend>,
    built: Seq<Result<Backend, ResolutionError>>,
) -> (Option<Backend>, Seq<Result<Backend, ResolutionError>>)
    decreases built.len(),
{
    if built.len() == 0 {
        (held, Seq::empty())
    } else {
        let (before, got) = acquire_in_turn(held, built.drop_last());
        let (after, last) = acquire(before, built.last());
        (after, got.push(last))
    }
}

/// Any number of callers that ask an empty holder in turn, each of whom could
/// construct the backend, all get the backend that the first of them
/// constructed, and the holder keeps that one: what the others could have
/// constructed is never used.
pub proof fn law_callers_in_turn_share_one_construction(
    built: Seq<Result<Backend, ResolutionError>>,
)
    requires
        built.len() > 0,
        forall|i: int| 0 <= i < built.len() ==> (#[trigger] built[i]) is Ok,
    ensures
        acquire_in_turn(None, built).0 == Some(built[0]->Ok_0),
        acquire_in_turn(None, built).1.len() == built.len(),
        forall|i: int|
            0 <= i < built.len() ==> (#[trigger] acquire_in_turn(None, built).1[i]) == built[0],
    decreases built.len(),
{
    let front = built.drop_last();
    if front.len() == 0 {
        assert(acquire_in_turn(None, front).1.len() == 0);
    } else {
        law_callers_in_turn_share_one_construction(front);
    }
}

/// A lookup turns to the primary backend first, and ends after one attempt or
/// two, whatever the backends give: the loop that drives a lookup stops.
pub proof fn law_lookup_ends_within_two_attempts(
    strategy: Strategy,
    hostname: Seq<char>,
    first: Outcome,
    second: Outcome,
)
    ensures
        asks(start(strategy, hostname).phase) == Some(BackendRole::Primary),
        asks(step(step(start(strategy, hostname), first), second).phase) is None,
        strategy == Strategy::NoFallback ==> asks(step(start(strategy, hostname), first).phase)
            is None,
{
}

/// The fallback backend is turned to only by a lookup with a fallback whose
/// primary backend was asked and failed; the failure is then on record.
pub proof fn law_fallback_only_after_primary_failure(lookup: LookupView, outcome: Outcome)
    requires
        asks(lookup.phase) != Some(BackendRole::Fallback),
        asks(step(lookup, outcome).phase) == Some(BackendRole::Fallback),
    ensures
        lookup.phase is TryPrimary,
        lookup.strategy == Strategy::WithFallback,
        outcome is Err,
        step(lookup, outcome).primary_failure == Some(outcome->Err_0),
{
}

/// Where the primary backend resolves the name, the caller gets exactly the
/// primary's addresses, in the primary's order, under either strategy and
/// whatever the fallback would have done. The fallback is not turned to: its
/// holder is as it was, and no primary failure is on record.
pub proof fn law_primary_answer_stands(
    facade: FacadeView,
    strategy: Strategy,
    hostname: Seq<char>,
    primary: BackendWorld,
    fallback: BackendWorld,
    ips: Seq<IpAddress>,
)
    requires
        attempt(facade.primary, primary).1 == Ok::<Seq<IpAddress>, ResolutionError>(ips),
    ensures
        answer(resolve(facade, strategy, hostname, primary, fallback).1.phase) == Some(
            Ok::<_, ResolutionError>(socket_addrs(ips, PLACEHOLDER_PORT)),
        ),
        resolve(facade, strategy, hostname, primary, fallback).0.fallback == facade.fallback,
        resolve(facade, strategy, hostname, primary, fallback).1.primary_failure is None,
{
}

/// Where the primary backend fails, by its construction or by its lookup, a
/// facade with a fallback gives the caller the fallback's result: the
/// fallback's addresses, or the fallback's error and not the primary's. The
/// primary's error is on record.
pub proof fn law_fallback_answer_stands(
    facade: FacadeView,
    hostname: Seq<char>,
    primary: BackendWorld,
    fallback: BackendWorld,
    primary_error: ResolutionError,
)
    requires
        attempt(facade.primary, primary).1 == Err::<Seq<IpAddress>, ResolutionError>(
            primary_error,
        ),
    ensures
        answer(resolve(facade, Strategy::WithFallback, hostname, primary, fallback).1.phase)
            == Some(
            match attempt(facade.fallback, fallback).1 {
                Ok(ips) => Ok(socket_addrs(ips, PLACEHOLDER_PORT)),
                Err(fallback_error) => Err(fallback_error),
            },
        ),
        resolve(facade, Strategy::WithFallback, hostname, primary, fallback).1.primary_failure
            == Some(primary_error),
{
}

/// A facade without a fallback gives the caller the primary's result, whatever
/// it is, and never turns to a fallback.
pub proof fn law_no_fallback_answer_is_primary(
    facade: FacadeView,
    hostname: Seq<char>,
    primary: BackendWorld,
    fallback: BackendWorld,
)
    ensures
        answer(resolve(facade, Strategy::NoFallback, hostname, primary, fallback).1.phase) == Some(
            match attempt(facade.primary, primary).1 {
                Ok(ips) => Ok(socket_addrs(ips, PLACEHOLDER_PORT)),
                Err(primary_error) => Err(primary_error),
            },
        ),
        resolve(facade, Strategy::NoFallback, hostname, primary, fallback).0.fallback
            == facade.fallback,
        resolve(facade, Strategy::NoFallback, hostname, primary, fallback).1.primary_failure is None,
{
}

/// A backend that a facade has constructed is never constructed again: a
/// lookup leaves every holder that has its backend as it was, whatever
/// constructing would give, so a facade with both backends comes out of any
/// lookup unchanged.
pub proof fn law_constructed_backends_are_kept(
    facade: FacadeView,
    strategy: Strategy,
    hostname: Seq<char>,
    primary: BackendWorld,
    fallback: BackendWorld,
)
    ensures
        facade.primary is Some ==> resolve(facade, strategy, hostname, primary, fallback).0.primary
            == facade.primary,
        facade.fallback is Some ==> resolve(
            facade,
            strategy,
            hostname,
            primary,
            fallback,
        ).0.fallback == facade.fallback,
        facade.primary is Some && facade.fallback is Some ==> resolve(
            facade,
            strategy,
            hostname,
            primary,
            fallback,
        ).0 == facade,
{
}

/// Of two lookups through one facade, one after the other, the second
/// constructs no backend that the first has left in the facade. The two
/// lookups may be of different names and meet different worlds.
pub proof fn law_second_lookup_constructs_nothing_again(
    facade: FacadeView,
    strategy: Strategy,
    first_hostname: Seq<char>,
    first_primary: BackendWorld,
    first_fallback: BackendWorld,
    second_hostname: Seq<char>,
    second_primary: BackendWorld,
    second_fallback: BackendWorld,
)
    ensures
        ({
            let between = resolve(
                facade,
                strategy,
                first_hostname,
                first_primary,
                first_fallback,
            ).0;
            let after = resolve(
                between,
                strategy,
                second_hostname,
                second_primary,
                second_fallback,
            ).0;
            &&& between.primary is Some ==> after.primary == between.primary
            &&& between.fallback is Some ==> after.fallback == between.fallback
        }),
{
    let between = resolve(facade, strategy, first_hostname, first_primary, first_fallback).0;
    law_constructed_backends_are_kept(
        between,
        strategy,
        second_hostname,
        second_primary,
        second_fallback,
    );
}

} // verus!
