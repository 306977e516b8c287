//! One-time start of the provider.
//!
//! The guard records whether the provider has been started. Whoever shares
//! one guard between threads serialises the calls of `init` on it and
//! starts the provider, when told to, before letting the next caller in.

use vstd::prelude::*;
use crate::provider::StartFlags;

verus! {

/// Whether the provider has been started with the capabilities to verify
/// and to sign.
#[derive(Debug)]
pub struct InitGuard {
    started: bool,
}

/// The capabilities that every operation of this crate needs: both.
pub open spec fn spec_start_flags() -> StartFlags {
    StartFlags { verify: true, sign: true }
}

/// What one request to initialise does in a given state: the state behind
/// it, and the start to perform, if any.
pub open spec fn spec_init(started: bool) -> (bool, Option<StartFlags>) {
    if started {
        (true, None)
    } else {
        (true, Some(spec_start_flags()))
    }
}

/// How many starts are ordered by `requests` requests in a row, the first
/// of them made in the given state.
pub open spec fn spec_starts_ordered(started: bool, requests: nat) -> nat
    decreases requests,
{
    if requests == 0 {
        0
    } else {
        let (next, action) = spec_init(started);
        let ordered: nat = if action is Some {
            1
        } else {
            0
        };
        ordered + spec_starts_ordered(next, (requests - 1) as nat)
    }
}

/// The state after `requests` requests in a row.
pub open spec fn spec_state_after(started: bool, requests: nat) -> bool
    decreases requests,
{
    if requests == 0 {
        started
    } else {
        spec_state_after(spec_init(started).0, (requests - 1) as nat)
    }
}

/// Once the provider is started, no number of further requests orders
/// another start.
pub proof fn lemma_no_second_start(requests: nat)
    ensures
        spec_starts_ordered(true, requests) == 0,
        spec_state_after(true, requests),
    decreases requests,
{
    if requests > 0 {
        lemma_no_second_start((requests - 1) as nat);
    }
}

/// Any number of requests, made one after the other on a fresh guard,
/// orders exactly one start of the provider, the first request orders it,
/// and every request leaves the guard started.
pub proof fn lemma_exactly_one_start(requests: nat)
    requires
        requests >= 1,
    ensures
        spec_starts_ordered(false, requests) == 1,
        spec_init(false).1 == Some(spec_start_flags()),
        forall|k: nat| 1 <= k <= requests ==> spec_state_after(false, k),
{
    lemma_no_second_start((requests - 1) as nat);
    assert forall|k: nat| 1 <= k <= requests implies spec_state_after(false, k) by {
        lemma_no_second_start((k - 1) as nat);
    }
}

impl InitGuard {
    /// Whether the provider has been started.
    pub closed spec fn spec_is_started(&self) -> bool {
        self.started
    }

    /// The guard of a process in which the provider has not been started.
    pub fn new() -> (guard: InitGuard)
        ensures
            !guard.spec_is_started(),
    {
        InitGuard { started: false }
    }

    /// Whether the provider has been started.
    pub fn is_started(&self) -> (started: bool)
        ensures
            started == self.spec_is_started(),
    {
        self.started
    }
}

/// Does the one-time initialisation: on a guard that is not started it
/// orders the start of the provider, with both capabilities, and marks the
/// guard; on a started guard it orders nothing. The caller performs the
/// start that is ordered before it uses the provider.
pub fn init(guard: &mut InitGuard) -> (start: Option<StartFlags>)
    ensures
        final(guard).spec_is_started() == spec_init(old(guard).spec_is_started()).0,
        start == spec_init(old(guard).spec_is_started()).1,
        final(guard).spec_is_started(),
        start is Some <==> !old(guard).spec_is_started(),
{
    if guard.started {
        None
    } else {
        guard.started = true;
        Some(StartFlags { verify: true, sign: true })
    }
}

} // verus!
