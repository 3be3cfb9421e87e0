//! The one retry discipline behind connect, accept and every receive.
//!
//! An operation is attempted without blocking. An attempt that has a result
//! ends the operation; one that fails for good ends it with the failure; one
//! that has nothing yet is repeated after a pause, until more time than the
//! timeout has gone by since the first attempt, and then the operation ends
//! with nothing. This module decides, after each attempt, which of these it
//! is. The caller makes the attempts, reads the clock and sleeps.

use vstd::prelude::*;
use crate::ipc::io_error::IoErrorKind;
use crate::ipc::span::Span;

verus! {

/// What to do after an attempt.
#[derive(Debug, PartialEq, Eq)]
pub enum RetryStep<R> {
    /// The operation has this result.
    Done(R),
    /// The operation has failed for good.
    Fail(IoErrorKind),
    /// The timeout has run out: the operation ends with nothing.
    GiveUp,
    /// Pause for this long, then attempt again.
    Sleep(Span),
}

/// What the retry discipline makes of one attempt, made when `elapsed` had
/// gone by since the first.
///
/// An attempt that would have had to wait counts as one that has nothing
/// yet. Nothing yet means giving up when, and only when, strictly more than
/// `timeout` has gone by.
pub open spec fn spec_try_fcn_timeout<R>(
    attempt: Result<Option<R>, IoErrorKind>,
    elapsed: Span,
    timeout: Span,
    sleep_time: Span,
) -> RetryStep<R> {
    match attempt {
        Ok(Some(r)) => RetryStep::Done(r),
        Err(kind) if kind != IoErrorKind::WouldBlock => RetryStep::Fail(kind),
        _ => if elapsed.nanos > timeout.nanos {
            RetryStep::GiveUp
        } else {
            RetryStep::Sleep(sleep_time)
        },
    }
}

/// Decides what follows an attempt that was made when `elapsed` had gone by
/// since the first attempt.
pub fn try_fcn_timeout<R>(
    attempt: Result<Option<R>, IoErrorKind>,
    elapsed: Span,
    timeout: Span,
    sleep_time: Span,
) -> (step: RetryStep<R>)
    ensures
        step == spec_try_fcn_timeout(attempt, elapsed, timeout, sleep_time),
        step is GiveUp ==> elapsed.nanos > timeout.nanos,
        step is Sleep ==> elapsed.nanos <= timeout.nanos,
{
    match attempt {
        Ok(Some(r)) => RetryStep::Done(r),
        Ok(None) => pause_or_give_up(elapsed, timeout, sleep_time),
        Err(kind) => match kind {
            IoErrorKind::WouldBlock => pause_or_give_up(elapsed, timeout, sleep_time),
            _ => RetryStep::Fail(kind),
        },
    }
}

/// After an attempt that had nothing yet: give up once the timeout has run
/// out, pause otherwise.
fn pause_or_give_up<R>(elapsed: Span, timeout: Span, sleep_time: Span) -> (step: RetryStep<R>)
    ensures
        step == if elapsed.nanos > timeout.nanos {
            RetryStep::<R>::GiveUp
        } else {
            RetryStep::<R>::Sleep(sleep_time)
        },
{
    if elapsed.exceeds(&timeout) {
        RetryStep::GiveUp
    } else {
        RetryStep::Sleep(sleep_time)
    }
}

/// The time at which attempt number `n` is checked against the timeout, for
/// an operation whose attempts take no time of their own and whose pauses
/// last exactly `pause`: attempt 0 at 0, attempt 1 at `pause`, and so on.
pub open spec fn check_time(n: nat, pause: nat) -> nat {
    n * pause
}

/// The number of the attempt after which an operation that never has
/// anything gives up, under the same reckoning of time.
pub open spec fn last_attempt(timeout: nat, pause: nat) -> nat
    recommends
        pause > 0,
{
    timeout / pause + 1
}

/// An operation that never has anything gives up no earlier than its
/// timeout and no later than one pause after it. Its attempts are reckoned
/// to take no time, and its pauses to last exactly `pause`, which has to be
/// more than nothing: every earlier attempt is followed by a pause, and the
/// one at which it gives up is checked at a time in `(timeout, timeout + pause]`.
pub proof fn lemma_gives_up_within_one_pause(timeout: Span, pause: Span)
    requires
        pause.nanos > 0,
    ensures
        forall|n: nat|
            n < last_attempt(timeout.nanos as nat, pause.nanos as nat) ==> #[trigger] check_time(
                n,
                pause.nanos as nat,
            ) <= timeout.nanos,
        check_time(last_attempt(timeout.nanos as nat, pause.nanos as nat), pause.nanos as nat)
            > timeout.nanos,
        check_time(last_attempt(timeout.nanos as nat, pause.nanos as nat), pause.nanos as nat)
            <= timeout.nanos + pause.nanos,
{
    let t = timeout.nanos as nat;
    let p = pause.nanos as nat;
    let q = t / p;
    assert(t == p * q + t % p && 0 <= t % p < p) by (nonlinear_arith)
        requires
            p > 0,
            q == t / p,
    ;
    assert((q + 1) * p == q * p + p) by (nonlinear_arith);
    assert forall|n: nat| n < last_attempt(t, p) implies #[trigger] check_time(n, p) <= t by {
        assert(n * p <= q * p) by (nonlinear_arith)
            requires
                n <= q,
                p > 0,
        ;
        assert(q * p == p * q) by (nonlinear_arith);
    }
    assert(q * p == p * q) by (nonlinear_arith);
}

/// Whatever time the attempts and pauses really take: an attempt that is
/// followed by a pause was checked no later than the timeout, so the next
/// check comes no later than the timeout plus that pause plus the time the
/// next attempt took. If the operation gives up there, it does so later than
/// the timeout and within that bound.
pub proof fn lemma_next_check_is_bounded<R>(
    earlier: Span,
    later: Span,
    timeout: Span,
    sleep_time: Span,
    attempt_time: Span,
)
    requires
        spec_try_fcn_timeout::<R>(Ok(None), earlier, timeout, sleep_time) is Sleep,
        later.nanos == earlier.nanos + sleep_time.nanos + attempt_time.nanos,
        spec_try_fcn_timeout::<R>(Ok(None), later, timeout, sleep_time) is GiveUp,
    ensures
        timeout.nanos < later.nanos <= timeout.nanos + sleep_time.nanos + attempt_time.nanos,
{
}

} // verus!
