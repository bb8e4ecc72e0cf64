//! A wait that a shutdown can cut short.
//!
//! The wait is taken in steps of one second.  Before each step the caller
//! says whether a shutdown was asked for; the wait answers with the next
//! step, or with the news that it is over.

use vstd::prelude::*;

verus! {

/// Longest time, in seconds, that the wait lets pass between two looks at
/// the shutdown flag.
pub const POLL_INTERVAL_SECONDS: u64 = 1;

/// What to do next in a wait.
#[derive(Clone, Copy, Debug, PartialEq, Eq, Structural)]
pub enum WaitStep {
    /// Sleep for this many seconds, then ask again.
    Sleep(u64),
    /// The whole time has passed.
    Elapsed,
    /// A shutdown was asked for; the wait is over.
    Cancelled,
}

/// How far a wait has come.
pub struct WaitView {
    /// Seconds still to wait.
    pub remaining: nat,
    /// Whether a shutdown has been seen.
    pub cancelled: bool,
}

/// What a wait does when asked for its next step, with `cancelled` telling
/// whether a shutdown was asked for: the wait afterwards, and the step.
pub open spec fn wait_step(wait: WaitView, cancelled: bool) -> (WaitView, WaitStep) {
    if wait.cancelled || cancelled {
        (WaitView { remaining: wait.remaining, cancelled: true }, WaitStep::Cancelled)
    } else if wait.remaining == 0 {
        (wait, WaitStep::Elapsed)
    } else {
        let step = if wait.remaining < POLL_INTERVAL_SECONDS {
            wait.remaining
        } else {
            POLL_INTERVAL_SECONDS as nat
        };
        (
            WaitView { remaining: (wait.remaining - step) as nat, cancelled: false },
            WaitStep::Sleep(step as u64),
        )
    }
}

/// Seconds slept in all when the wait is asked once for each entry of
/// `polls`, each entry telling whether a shutdown was asked for by then.
pub open spec fn total_sleep(wait: WaitView, polls: Seq<bool>) -> nat
    decreases polls.len(),
{
    if polls.len() == 0 {
        0
    } else {
        match wait_step(wait, polls[0]).1 {
            WaitStep::Sleep(seconds) => seconds as nat + total_sleep(
                wait_step(wait, polls[0]).0,
                polls.drop_first(),
            ),
            _ => 0,
        }
    }
}

/// A wait of a given number of seconds.
#[derive(Debug)]
pub struct CancellableWait {
    remaining: u64,
    cancelled: bool,
}

impl View for CancellableWait {
    type V = WaitView;

    closed spec fn view(&self) -> WaitView {
        WaitView { remaining: self.remaining as nat, cancelled: self.cancelled }
    }
}

impl CancellableWait {
    /// A wait of `seconds` seconds, not yet begun.
    pub fn new(seconds: u64) -> (wait: Self)
        ensures
            wait@ == (WaitView { remaining: seconds as nat, cancelled: false }),
    {
        CancellableWait { remaining: seconds, cancelled: false }
    }

    /// Seconds still to wait.
    pub fn remaining(&self) -> (seconds: u64)
        ensures
            seconds == self@.remaining,
    {
        self.remaining
    }

    /// The next step of the wait.  `cancelled` tells whether a shutdown has
    /// been asked for.
    pub fn poll(&mut self, cancelled: bool) -> (step: WaitStep)
        ensures
            (final(self)@, step) == wait_step(old(self)@, cancelled),
    {
        if self.cancelled || cancelled {
            self.cancelled = true;
            WaitStep::Cancelled
        } else if self.remaining == 0 {
            WaitStep::Elapsed
        } else {
            let step = if self.remaining < POLL_INTERVAL_SECONDS {
                self.remaining
            } else {
                POLL_INTERVAL_SECONDS
            };
            self.remaining = self.remaining - step;
            WaitStep::Sleep(step)
        }
    }
}

/// A shutdown ends the wait at the very next step, however much time is
/// left, and the wait stays over from then on; between two steps the wait
/// never sleeps longer than the poll interval.
pub proof fn lemma_cancellation_is_prompt(wait: WaitView, cancelled: bool)
    ensures
        cancelled || wait.cancelled ==> wait_step(wait, cancelled).1 == WaitStep::Cancelled,
        cancelled || wait.cancelled ==> wait_step(wait, cancelled).0.cancelled,
        wait_step(wait, cancelled).1 matches WaitStep::Sleep(seconds) ==> 0 < seconds
            <= POLL_INTERVAL_SECONDS,
{
}

/// A wait never sleeps longer than it was asked to wait, whatever happens.
pub proof fn lemma_wait_never_overshoots(wait: WaitView, polls: Seq<bool>)
    requires
        wait.remaining <= u64::MAX,
    ensures
        total_sleep(wait, polls) <= wait.remaining,
    decreases polls.len(),
{
    if polls.len() > 0 {
        lemma_wait_never_overshoots(wait_step(wait, polls[0]).0, polls.drop_first());
    }
}

/// Left alone, a wait sleeps for exactly the time it was asked to wait: with
/// no shutdown, and asked at least once per second of the wait, the sleeps
/// add up to the whole of it.
pub proof fn lemma_wait_runs_to_the_end(wait: WaitView, polls: Seq<bool>)
    requires
        wait.remaining <= u64::MAX,
        !wait.cancelled,
        forall|i: int| 0 <= i < polls.len() ==> !polls[i],
        polls.len() >= wait.remaining,
    ensures
        total_sleep(wait, polls) == wait.remaining,
    decreases polls.len(),
{
    if polls.len() > 0 {
        let rest = polls.drop_first();
        assert forall|i: int| 0 <= i < rest.len() implies !rest[i] by {
            assert(rest[i] == polls[i + 1]);
        }
        lemma_wait_runs_to_the_end(wait_step(wait, polls[0]).0, rest);
    }
}

} // verus!
