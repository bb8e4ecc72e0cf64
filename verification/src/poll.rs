//! Waiting, with a bounded number of tries, for something to come up.
//!
//! The controller may still be starting when the daemon does.  The daemon
//! looks for it a fixed number of times, a second apart, and gives up after
//! that.  The poll counts the tries and says what to do after each look; the
//! caller looks and sleeps.

use vstd::prelude::*;

verus! {

/// How many times the daemon looks before it gives up.
pub const MAX_TRIES: u32 = 10;

/// Seconds between one look and the next.
pub const RETRY_DELAY_SECONDS: u64 = 1;

/// What one look found.
#[derive(Clone, Copy, Debug, PartialEq, Eq, Structural)]
pub enum Probe {
    /// What the daemon waits for is there.
    Ready,
    /// It is not there yet.
    NotReady,
    /// The look itself failed; looking again is pointless.
    Failed,
}

/// What to do after a look.
#[derive(Clone, Copy, Debug, PartialEq, Eq, Structural)]
pub enum PollStep {
    /// Go on: what the daemon waited for is there.
    Ready,
    /// Stop: the look failed.
    Failed,
    /// Sleep for this many seconds, then look again if tries are left.
    RetryAfter(u64),
    /// Stop: all tries are used up.
    GaveUp,
}

/// What a poll that has used `tries` tries does on `probe`: the number of
/// tries used afterwards, and the step to take.
pub open spec fn poll_step(tries: nat, probe: Probe) -> (nat, PollStep) {
    if tries >= MAX_TRIES {
        (tries, PollStep::GaveUp)
    } else {
        match probe {
            Probe::Ready => (tries, PollStep::Ready),
            Probe::Failed => (tries, PollStep::Failed),
            Probe::NotReady => (tries + 1, PollStep::RetryAfter(RETRY_DELAY_SECONDS)),
        }
    }
}

/// Seconds that a poll with `tries` tries used asks its caller to sleep, in
/// all, over the looks `probes`.  It asks for nothing more once a look has
/// ended the poll.
pub open spec fn total_delay(tries: nat, probes: Seq<Probe>) -> nat
    decreases probes.len(),
{
    if probes.len() == 0 {
        0
    } else {
        match poll_step(tries, probes[0]).1 {
            PollStep::RetryAfter(seconds) => seconds as nat + total_delay(
                poll_step(tries, probes[0]).0,
                probes.drop_first(),
            ),
            _ => 0,
        }
    }
}

/// Counts the tries of one bounded wait.
#[derive(Debug)]
pub struct StartupPoll {
    tries: u32,
}

impl StartupPoll {
    /// Tries used so far.
    pub closed spec fn tries(self) -> nat {
        self.tries as nat
    }

    /// A poll never counts more tries than it allows.
    #[verifier::type_invariant]
    pub open spec fn well_formed(self) -> bool {
        self.tries() <= MAX_TRIES
    }

    /// A poll with no try used.
    pub fn new() -> (poll: Self)
        ensures
            poll.tries() == 0,
    {
        StartupPoll { tries: 0 }
    }

    /// Whether all tries are used up.
    pub fn exhausted(&self) -> (exhausted: bool)
        ensures
            exhausted == (self.tries() >= MAX_TRIES),
    {
        self.tries >= MAX_TRIES
    }

    /// Takes note of what a look found and says what to do next.
    pub fn record(&mut self, probe: Probe) -> (step: PollStep)
        ensures
            (final(self).tries(), step) == poll_step(old(self).tries(), probe),
    {
        proof {
            use_type_invariant(&*self);
        }
        if self.tries >= MAX_TRIES {
            return PollStep::GaveUp;
        }
        match probe {
            Probe::Ready => PollStep::Ready,
            Probe::Failed => PollStep::Failed,
            Probe::NotReady => {
                self.tries = self.tries + 1;
                PollStep::RetryAfter(RETRY_DELAY_SECONDS)
            },
        }
    }
}

/// The wait is bounded: whatever the looks find, a poll asks for no more
/// sleep than its remaining tries times the delay, so a fresh poll asks for
/// ten seconds at most.
pub proof fn lemma_total_delay_is_bounded(tries: nat, probes: Seq<Probe>)
    requires
        tries <= MAX_TRIES,
    ensures
        total_delay(tries, probes) <= (MAX_TRIES - tries) * RETRY_DELAY_SECONDS,
    decreases probes.len(),
{
    if probes.len() > 0 {
        lemma_total_delay_is_bounded(poll_step(tries, probes[0]).0, probes.drop_first());
    }
}

/// A look that finds the controller ends the poll at once, as long as a try
/// was left for it; once none is left, every look gives up.
pub proof fn lemma_poll_ends(tries: nat, probe: Probe)
    ensures
        tries < MAX_TRIES && probe == Probe::Ready ==> poll_step(tries, probe).1 == PollStep::Ready,
        tries < MAX_TRIES && probe == Probe::Failed ==> poll_step(tries, probe).1
            == PollStep::Failed,
        tries >= MAX_TRIES ==> poll_step(tries, probe) == (tries, PollStep::GaveUp),
{
}

} // verus!
