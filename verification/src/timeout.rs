//! The timeout decorator and the response race.
//!
//! The decorator wraps a service and a fixed duration; each call races
//! the wrapped operation against a deadline timer. The race is resolved
//! by a fixed polling order: on every scheduling step the operation is
//! checked first, and only if it is still pending is the timer checked.
//! A result that arrives in the very step the timer fires therefore
//! still counts as success — no timeout is ever reported for a request
//! that has in fact completed.
//!
//! The decorator abandons rather than cancels the operation on timeout:
//! whether the underlying computation stops is the wrapped service's own
//! concern.

use vstd::prelude::*;

use crate::error::Elapsed;
use crate::error::RpcError;

verus! {

/// Applies a deadline to every request of the wrapped service.
///
/// Immutable after construction; each call starts a fresh race, so calls
/// never affect one another.
#[derive(Debug, Clone)]
pub struct Timeout<T> {
    /// The wrapped service.
    pub inner: T,
    /// How long one request may take, in milliseconds.
    pub deadline_ms: u64,
}

impl<T> Timeout<T> {
    /// Creates a new Timeout around `inner` with a fixed deadline.
    pub fn new(inner: T, deadline_ms: u64) -> (t: Timeout<T>)
        ensures
            t.inner == inner,
            t.deadline_ms == deadline_ms,
    {
        Timeout { inner, deadline_ms }
    }

    /// The wrapped service and the deadline, handed back to the caller.
    pub fn into_parts(self) -> (parts: (T, u64))
        ensures
            parts.0 == self.inner,
            parts.1 == self.deadline_ms,
    {
        (self.inner, self.deadline_ms)
    }
}

/// An operation result mapped into the common error type: success and
/// the distinguished timeout are untouched elsewhere; an operation
/// failure is wrapped opaquely.
pub open spec fn wrapped<R, E>(r: Result<R, E>) -> Result<R, RpcError<E>> {
    match r {
        Ok(v) => Ok(v),
        Err(e) => Err(RpcError::Operation(e)),
    }
}

/// Forward the wrapped service's readiness result unchanged, mapped into
/// the common error type. The decorator adds no buffering of its own.
pub fn forward_ready<E>(r: Result<(), E>) -> (out: Result<(), RpcError<E>>)
    ensures
        out == wrapped(r),
{
    match r {
        Ok(()) => Ok(()),
        Err(e) => Err(RpcError::Operation(e)),
    }
}

/// What one poll of the response race concluded.
#[derive(Debug, PartialEq, Eq)]
pub enum RacePoll<R, E> {
    /// Neither side was ready; the race must be polled again.
    Pending,
    /// One side resolved the race.
    Resolved(Result<R, RpcError<E>>),
}

/// One scheduling step of the response race.
///
/// `operation` is the wrapped operation's result if it is ready on this
/// step, `timer_fired` whether the deadline timer has fired by this
/// step. The operation is checked first: if it is ready, the race
/// resolves with its result whatever the timer did; only a still-pending
/// operation lets a fired timer resolve the race with a timeout.
pub fn race_poll<R, E>(operation: Option<Result<R, E>>, timer_fired: bool) -> (out: RacePoll<
    R,
    E,
>)
    ensures
        operation matches Some(r) ==> out == RacePoll::Resolved(wrapped(r)),
        operation is None && timer_fired ==> out == RacePoll::<R, E>::Resolved(
            Err(RpcError::TimedOut(Elapsed)),
        ),
        operation is None && !timer_fired ==> out == RacePoll::<R, E>::Pending,
{
    match operation {
        Some(r) => {
            match r {
                Ok(v) => RacePoll::Resolved(Ok(v)),
                Err(e) => RacePoll::Resolved(Err(RpcError::Operation(e))),
            }
        }
        None => {
            if timer_fired {
                RacePoll::Resolved(Err(RpcError::TimedOut(Elapsed::new())))
            } else {
                RacePoll::Pending
            }
        }
    }
}

/// Which side resolves a response race.
#[derive(Debug, PartialEq, Eq, Structural)]
pub enum RaceWinner {
    /// The wrapped operation's result came first (or tied the timer).
    Operation,
    /// The deadline elapsed with the operation still pending.
    Timer,
}

/// The response race watched from step `now` on, in abstract time: the
/// operation is ready from step `ready_at`, the timer has fired from
/// step `deadline`. Each step checks the operation before the timer.
pub open spec fn race_from(ready_at: nat, deadline: nat, now: nat) -> RaceWinner
    decreases ready_at - now,
{
    if now >= ready_at {
        RaceWinner::Operation
    } else if now >= deadline {
        RaceWinner::Timer
    } else {
        race_from(ready_at, deadline, now + 1)
    }
}

/// From any step not past the operation's arrival, a race whose
/// operation is ready by the deadline resolves with the operation.
pub proof fn lemma_operation_wins_from(ready_at: nat, deadline: nat, now: nat)
    requires
        ready_at <= deadline,
    ensures
        race_from(ready_at, deadline, now) == RaceWinner::Operation,
    decreases ready_at - now,
{
    if now < ready_at {
        lemma_operation_wins_from(ready_at, deadline, now + 1);
    }
}

/// From any step strictly before the operation's arrival, a race whose
/// deadline precedes the operation resolves with the timer.
pub proof fn lemma_timer_wins_from(ready_at: nat, deadline: nat, now: nat)
    requires
        deadline < ready_at,
        now < ready_at,
    ensures
        race_from(ready_at, deadline, now) == RaceWinner::Timer,
    decreases ready_at - now,
{
    if now < deadline {
        lemma_timer_wins_from(ready_at, deadline, now + 1);
    }
}

/// An operation that resolves at any step `ready_at` up to and including
/// the deadline wins the race: the call resolves with the operation's
/// result and no timeout is reported, however close `ready_at` is to the
/// deadline.
pub proof fn lemma_response_in_time(ready_at: nat, deadline: nat)
    requires
        ready_at <= deadline,
    ensures
        race_from(ready_at, deadline, 0) == RaceWinner::Operation,
{
    lemma_operation_wins_from(ready_at, deadline, 0);
}

/// An operation still pending when the deadline fires loses the race:
/// the call resolves with a timeout.
pub proof fn lemma_deadline_elapsed(ready_at: nat, deadline: nat)
    requires
        deadline < ready_at,
    ensures
        race_from(ready_at, deadline, 0) == RaceWinner::Timer,
{
    lemma_timer_wins_from(ready_at, deadline, 0);
}

/// Tie-break: an operation that becomes ready in the very step the timer
/// fires still wins — the race never reports a timeout for a request
/// that has completed.
pub proof fn lemma_tie_goes_to_operation(t: nat)
    ensures
        race_from(t, t, 0) == RaceWinner::Operation,
{
    lemma_operation_wins_from(t, t, 0);
}

/// Run one response race to resolution in abstract time: the operation
/// is ready from step `ready_at` with result `result`; the timer fires
/// at step `deadline`. Steps are polled in order, the operation checked
/// before the timer on each.
pub fn resolve_race<R, E>(ready_at: u64, result: Result<R, E>, deadline: u64) -> (out: Result<
    R,
    RpcError<E>,
>)
    ensures
        ready_at <= deadline ==> out == wrapped(result),
        deadline < ready_at ==> out == Result::<R, RpcError<E>>::Err(RpcError::TimedOut(Elapsed)),
{
    let mut now: u64 = 0;
    while now < ready_at && now < deadline
        invariant
            now <= ready_at,
            now <= deadline,
        decreases ready_at - now,
    {
        now = now + 1;
    }
    if now >= ready_at {
        match race_poll(Some(result), now >= deadline) {
            RacePoll::Resolved(r) => r,
            RacePoll::Pending => vstd::pervasive::unreached(),
        }
    } else {
        match race_poll::<R, E>(None, true) {
            RacePoll::Resolved(r) => r,
            RacePoll::Pending => vstd::pervasive::unreached(),
        }
    }
}

} // verus!

