//! The daemon's life, as a machine that is told what happened and answers
//! with what to do.
//!
//! The scheduler reads no clock, sends nothing and never sleeps.  Its caller
//! does all that: it carries out the action that a step returns, and reports
//! what came of it as the next event.

use crate::command::{command_in, FilterCommand};
use crate::phase::{
    get_duration_to_next_event, get_part_of_day, part_of_day, seconds_to_next_event,
};
use crate::time::TimeOfDay;
use vstd::prelude::*;

verus! {

/// Seconds to let pass after a wait has ended, before the part of the day is
/// looked at again, so that a clock that runs a little behind does not show
/// the part that has just ended.
pub const SETTLE_SECONDS: u64 = 60;

/// The four states of the daemon's life.
#[derive(Clone, Copy, Debug, PartialEq, Eq, Structural)]
pub enum SchedulerState {
    /// Setting up; no command has been sent yet.
    Starting,
    /// In the loop of deciding, commanding and waiting.
    Running,
    /// On the way out; only cleanup is left.
    Cancelling,
    /// Done.
    Stopped,
}

/// Why the daemon stops.
#[derive(Clone, Copy, Debug, PartialEq, Eq, Structural)]
pub enum ExitReason {
    /// Another instance holds the lock.
    AlreadyRunning,
    /// Something failed that the daemon cannot go on without.
    Failed,
    /// A shutdown was asked for.
    Shutdown,
}

/// Where exactly the daemon stands.
#[derive(Clone, Copy, Debug, PartialEq, Eq, Structural)]
pub enum Stage {
    /// Setting up, with or without the instance lock in hand.
    Starting { guard_held: bool },
    /// About to read the clock and decide on a command.
    Deciding,
    /// A command is with the control client.  Once it returns, the daemon
    /// waits for `wait_seconds`.
    Applying { wait_seconds: u64 },
    /// Waiting for the part of the day to end.
    Waiting,
    /// Letting the settle time pass.
    Settling,
    /// Giving the instance lock back.
    Cancelling { reason: ExitReason },
    /// Done.
    Stopped { reason: ExitReason },
}

/// What the caller reports to the scheduler.
#[derive(Clone, Copy, Debug, PartialEq, Eq, Structural)]
pub enum Event {
    /// The instance lock was taken.
    GuardAcquired,
    /// The instance lock is held by another daemon.
    GuardContended,
    /// Setup is complete.
    SetupComplete,
    /// Something failed that the daemon cannot go on without.
    Failed,
    /// The clock was read, and the day's sunrise and sunset computed.
    Clock { now: TimeOfDay, sunrise: TimeOfDay, sunset: TimeOfDay },
    /// The control client has returned; `delivered` tells whether the
    /// command reached the controller.
    ControlReturned { delivered: bool },
    /// The wait that the scheduler asked for has run to its end.
    WaitElapsed,
    /// A shutdown was asked for.
    Cancelled,
    /// The instance lock was given back.
    GuardReleased,
}

/// What the scheduler asks its caller to do.
#[derive(Clone, Copy, Debug, PartialEq, Eq, Structural)]
pub enum Action {
    /// Nothing in particular: go on with what is at hand.
    Proceed,
    /// Read the clock, compute the day's sunrise and sunset, and report them.
    ReadClock,
    /// Hand this command to the control client and report how it went.
    Apply(FilterCommand),
    /// Wait for so many seconds, unless a shutdown comes first.
    Wait { seconds: u64 },
    /// Give the instance lock back and delete its file.
    ReleaseGuard,
    /// Leave.
    Exit(ExitReason),
}

/// A scheduler's state as contracts see it.
pub struct SchedulerView {
    /// Where the daemon stands.
    pub stage: Stage,
    /// The colour temperature of the filter when it is on.
    pub temperature: i32,
}

/// The state of the daemon's life that a stage belongs to.
pub open spec fn state_of(stage: Stage) -> SchedulerState {
    match stage {
        Stage::Starting { .. } => SchedulerState::Starting,
        Stage::Deciding | Stage::Applying { .. } | Stage::Waiting | Stage::Settling =>
            SchedulerState::Running,
        Stage::Cancelling { .. } => SchedulerState::Cancelling,
        Stage::Stopped { .. } => SchedulerState::Stopped,
    }
}

/// Whether the daemon holds the instance lock at a stage and has not yet
/// been asked to give it back.
pub open spec fn holds_guard(stage: Stage) -> bool {
    match stage {
        Stage::Starting { guard_held } => guard_held,
        Stage::Deciding | Stage::Applying { .. } | Stage::Waiting | Stage::Settling => true,
        Stage::Cancelling { .. } | Stage::Stopped { .. } => false,
    }
}

/// The way out of a stage: with the lock in hand the daemon gives it back
/// first, without it the daemon leaves at once.
pub open spec fn leave(stage: Stage, reason: ExitReason) -> (Stage, Action) {
    if holds_guard(stage) {
        (Stage::Cancelling { reason }, Action::ReleaseGuard)
    } else {
        (Stage::Stopped { reason }, Action::Exit(reason))
    }
}

/// The stage that follows `stage` on `event`, and the action that the caller
/// is asked to take.  An event that does not belong at a stage changes
/// nothing and asks for nothing.
pub open spec fn stage_step(stage: Stage, temperature: i32, event: Event) -> (Stage, Action) {
    match (stage, event) {
        (Stage::Starting { guard_held: false }, Event::GuardAcquired) => (
            Stage::Starting { guard_held: true },
            Action::Proceed,
        ),
        (Stage::Starting { .. }, Event::GuardContended) => leave(
            stage,
            ExitReason::AlreadyRunning,
        ),
        (Stage::Starting { guard_held: true }, Event::SetupComplete) => (
            Stage::Deciding,
            Action::ReadClock,
        ),
        (Stage::Starting { guard_held: false }, Event::SetupComplete) => leave(
            stage,
            ExitReason::Failed,
        ),
        (Stage::Deciding, Event::Clock { now, sunrise, sunset }) => (
            Stage::Applying {
                wait_seconds: seconds_to_next_event(now, sunrise, sunset) as u64,
            },
            Action::Apply(command_in(part_of_day(now, sunrise, sunset), temperature)),
        ),
        (Stage::Applying { wait_seconds }, Event::ControlReturned { .. }) => (
            Stage::Waiting,
            Action::Wait { seconds: wait_seconds },
        ),
        (Stage::Waiting, Event::WaitElapsed) => (
            Stage::Settling,
            Action::Wait { seconds: SETTLE_SECONDS },
        ),
        (Stage::Settling, Event::WaitElapsed) => (Stage::Deciding, Action::ReadClock),
        (Stage::Cancelling { reason }, Event::GuardReleased) => (
            Stage::Stopped { reason },
            Action::Exit(reason),
        ),
        (Stage::Cancelling { .. }, _) | (Stage::Stopped { .. }, _) => (stage, Action::Proceed),
        (_, Event::Failed) => leave(stage, ExitReason::Failed),
        (_, Event::Cancelled) => leave(stage, ExitReason::Shutdown),
        _ => (stage, Action::Proceed),
    }
}

/// One step of the scheduler: the state afterwards and the action asked for.
pub open spec fn step(scheduler: SchedulerView, event: Event) -> (SchedulerView, Action) {
    let (stage, action) = stage_step(scheduler.stage, scheduler.temperature, event);
    (SchedulerView { stage, temperature: scheduler.temperature }, action)
}

/// The daemon's scheduler.
#[derive(Debug)]
pub struct Scheduler {
    stage: Stage,
    temperature: i32,
}

impl View for Scheduler {
    type V = SchedulerView;

    closed spec fn view(&self) -> SchedulerView {
        SchedulerView { stage: self.stage, temperature: self.temperature }
    }
}

impl Scheduler {
    /// A scheduler at the start of setup, without the instance lock, for a
    /// filter of the given colour temperature.
    pub fn new(temperature: i32) -> (scheduler: Self)
        ensures
            scheduler@ == (SchedulerView {
                stage: Stage::Starting { guard_held: false },
                temperature,
            }),
    {
        Scheduler { stage: Stage::Starting { guard_held: false }, temperature }
    }

    /// Where the daemon stands.
    pub fn stage(&self) -> (stage: Stage)
        ensures
            stage == self@.stage,
    {
        self.stage
    }

    /// The state of the daemon's life.
    pub fn state(&self) -> (state: SchedulerState)
        ensures
            state == state_of(self@.stage),
    {
        match self.stage {
            Stage::Starting { .. } => SchedulerState::Starting,
            Stage::Deciding | Stage::Applying { .. } | Stage::Waiting | Stage::Settling =>
                SchedulerState::Running,
            Stage::Cancelling { .. } => SchedulerState::Cancelling,
            Stage::Stopped { .. } => SchedulerState::Stopped,
        }
    }

    /// The colour temperature of the filter when it is on.
    pub fn temperature(&self) -> (temperature: i32)
        ensures
            temperature == self@.temperature,
    {
        self.temperature
    }

    /// Leaves the current stage for `reason`.
    fn leave(&mut self, reason: ExitReason) -> (action: Action)
        ensures
            final(self)@.temperature == old(self)@.temperature,
            (final(self)@.stage, action) == leave(old(self)@.stage, reason),
    {
        let holds = match self.stage {
            Stage::Starting { guard_held } => guard_held,
            Stage::Deciding | Stage::Applying { .. } | Stage::Waiting | Stage::Settling => true,
            Stage::Cancelling { .. } | Stage::Stopped { .. } => false,
        };
        if holds {
            self.stage = Stage::Cancelling { reason };
            Action::ReleaseGuard
        } else {
            self.stage = Stage::Stopped { reason };
            Action::Exit(reason)
        }
    }

    /// Takes note of `event` and says what to do next.
    pub fn step(&mut self, event: Event) -> (action: Action)
        ensures
            (final(self)@, action) == step(old(self)@, event),
    {
        match (self.stage, event) {
            (Stage::Starting { guard_held: false }, Event::GuardAcquired) => {
                self.stage = Stage::Starting { guard_held: true };
                Action::Proceed
            },
            (Stage::Starting { .. }, Event::GuardContended) => self.leave(
                ExitReason::AlreadyRunning,
            ),
            (Stage::Starting { guard_held: true }, Event::SetupComplete) => {
                self.stage = Stage::Deciding;
                Action::ReadClock
            },
            (Stage::Starting { guard_held: false }, Event::SetupComplete) => self.leave(
                ExitReason::Failed,
            ),
            (Stage::Deciding, Event::Clock { now, sunrise, sunset }) => {
                let part = get_part_of_day(now, sunrise, sunset);
                let wait_seconds = get_duration_to_next_event(now, sunrise, sunset);
                self.stage = Stage::Applying { wait_seconds };
                Action::Apply(FilterCommand::for_part(part, self.temperature))
            },
            (Stage::Applying { wait_seconds }, Event::ControlReturned { .. }) => {
                self.stage = Stage::Waiting;
                Action::Wait { seconds: wait_seconds }
            },
            (Stage::Waiting, Event::WaitElapsed) => {
                self.stage = Stage::Settling;
                Action::Wait { seconds: SETTLE_SECONDS }
            },
            (Stage::Settling, Event::WaitElapsed) => {
                self.stage = Stage::Deciding;
                Action::ReadClock
            },
            (Stage::Cancelling { reason }, Event::GuardReleased) => {
                self.stage = Stage::Stopped { reason };
                Action::Exit(reason)
            },
            (Stage::Cancelling { .. }, _) | (Stage::Stopped { .. }, _) => Action::Proceed,
            (_, Event::Failed) => self.leave(ExitReason::Failed),
            (_, Event::Cancelled) => self.leave(ExitReason::Shutdown),
            _ => Action::Proceed,
        }
    }
}

/// Position of a state in the order in which the daemon passes through them.
pub open spec fn state_rank(state: SchedulerState) -> int {
    match state {
        SchedulerState::Starting => 0,
        SchedulerState::Running => 1,
        SchedulerState::Cancelling => 2,
        SchedulerState::Stopped => 3,
    }
}

/// The scheduler after it has taken the steps for `events`, in order.
pub open spec fn run(scheduler: SchedulerView, events: Seq<Event>) -> SchedulerView
    decreases events.len(),
{
    if events.len() == 0 {
        scheduler
    } else {
        step(run(scheduler, events.drop_last()), events.last()).0
    }
}

/// The action that the scheduler asks for on the last of `events`, having
/// taken the steps for those before it.
pub open spec fn last_action(scheduler: SchedulerView, events: Seq<Event>) -> Action
    recommends
        events.len() > 0,
{
    step(run(scheduler, events.drop_last()), events.last()).1
}

/// How often, over `events`, the scheduler asks for the instance lock to be
/// given back.
pub open spec fn releases(scheduler: SchedulerView, events: Seq<Event>) -> nat
    decreases events.len(),
{
    if events.len() == 0 {
        0
    } else {
        releases(scheduler, events.drop_last()) + if last_action(scheduler, events)
            == Action::ReleaseGuard {
            1nat
        } else {
            0nat
        }
    }
}

/// How often, over `events`, the scheduler takes note that the instance lock
/// was taken.
pub open spec fn acquisitions(scheduler: SchedulerView, events: Seq<Event>) -> nat
    decreases events.len(),
{
    if events.len() == 0 {
        0
    } else {
        let before = run(scheduler, events.drop_last());
        acquisitions(scheduler, events.drop_last()) + if !holds_guard(before.stage) && holds_guard(
            run(scheduler, events).stage,
        ) {
            1nat
        } else {
            0nat
        }
    }
}

/// The commands that the scheduler hands out over `events`, in order.
pub open spec fn commands(scheduler: SchedulerView, events: Seq<Event>) -> Seq<FilterCommand>
    decreases events.len(),
{
    if events.len() == 0 {
        Seq::empty()
    } else {
        match last_action(scheduler, events) {
            Action::Apply(command) => commands(scheduler, events.drop_last()).push(command),
            _ => commands(scheduler, events.drop_last()),
        }
    }
}

/// The daemon's life never turns back: a step leaves the state as it is or
/// moves it on, from starting to running to cancelling to stopped.  A stopped
/// scheduler stays as it is and asks for nothing, and the colour temperature
/// never changes.
pub proof fn lemma_life_never_turns_back(scheduler: SchedulerView, event: Event)
    ensures
        state_rank(state_of(scheduler.stage)) <= state_rank(
            state_of(step(scheduler, event).0.stage),
        ),
        state_of(scheduler.stage) == SchedulerState::Stopped ==> step(scheduler, event) == (
            scheduler,
            Action::Proceed,
        ),
        step(scheduler, event).0.temperature == scheduler.temperature,
{
}

/// Commands go out only while the daemon is running, and one at a time: the
/// scheduler hands out a command only when it is about to decide, never
/// while an earlier command is still with the control client, and it is
/// running before and after.  The command is the one for the part of the
/// day that the reported time lies in, and the wait that follows is the time
/// to the next event.
pub proof fn lemma_commands_only_while_running(scheduler: SchedulerView, event: Event)
    ensures
        step(scheduler, event).1 matches Action::Apply(command) ==> {
            &&& scheduler.stage == Stage::Deciding
            &&& event matches Event::Clock { now, sunrise, sunset }
            &&& command == command_in(part_of_day(now, sunrise, sunset), scheduler.temperature)
            &&& step(scheduler, event).0.stage == (Stage::Applying {
                wait_seconds: seconds_to_next_event(now, sunrise, sunset) as u64,
            })
        },
        step(scheduler, event).1 is Apply ==> state_of(scheduler.stage) == SchedulerState::Running
            && state_of(step(scheduler, event).0.stage) == SchedulerState::Running,
        scheduler.stage is Applying ==> !(step(scheduler, event).1 is Apply),
{
}

/// Whether a command reached the controller makes no difference to the
/// scheduler: after the control client returns, the daemon is still running
/// and waits for the time that was computed with the command.
pub proof fn lemma_control_failure_is_recoverable(scheduler: SchedulerView, delivered: bool)
    ensures
        step(scheduler, Event::ControlReturned { delivered }) == step(
            scheduler,
            Event::ControlReturned { delivered: !delivered },
        ),
        scheduler.stage matches Stage::Applying { wait_seconds } ==> step(
            scheduler,
            Event::ControlReturned { delivered },
        ) == (
            SchedulerView { stage: Stage::Waiting, temperature: scheduler.temperature },
            Action::Wait { seconds: wait_seconds },
        ),
{
}

/// A command that failed does not keep the next one back: from a command
/// with the control client, whether or not it is delivered, the scheduler
/// comes by way of the wait and the settle time to the next reading of the
/// clock, and hands out the command for the part of the day read then.
pub proof fn lemma_next_cycle_commands_again(
    scheduler: SchedulerView,
    delivered: bool,
    now: TimeOfDay,
    sunrise: TimeOfDay,
    sunset: TimeOfDay,
)
    requires
        scheduler.stage is Applying,
    ensures
        ({
            let cycle = seq![
                Event::ControlReturned { delivered },
                Event::WaitElapsed,
                Event::WaitElapsed,
                Event::Clock { now, sunrise, sunset },
            ];
            &&& last_action(scheduler, cycle) == Action::Apply(
                command_in(part_of_day(now, sunrise, sunset), scheduler.temperature),
            )
            &&& state_of(run(scheduler, cycle).stage) == SchedulerState::Running
        }),
{
    let e0 = Event::ControlReturned { delivered };
    let e3 = Event::Clock { now, sunrise, sunset };
    let cycle = seq![e0, Event::WaitElapsed, Event::WaitElapsed, e3];
    let three = seq![e0, Event::WaitElapsed, Event::WaitElapsed];
    let two = seq![e0, Event::WaitElapsed];
    let one = seq![e0];
    assert(cycle.drop_last() =~= three);
    assert(three.drop_last() =~= two);
    assert(two.drop_last() =~= one);
    assert(one.drop_last() =~= Seq::<Event>::empty());
    assert(run(scheduler, one.drop_last()) == scheduler);
    assert(run(scheduler, one).stage == Stage::Waiting);
    assert(run(scheduler, two).stage == Stage::Settling);
    assert(run(scheduler, three).stage == Stage::Deciding);
}

/// A shutdown takes effect at once: whatever the daemon is doing, it turns
/// to cleanup, giving the lock back where it holds one, and leaving at once
/// where it holds none.  Further requests to shut down change nothing.
pub proof fn lemma_cancel_takes_effect_at_once(scheduler: SchedulerView)
    ensures
        state_rank(state_of(step(scheduler, Event::Cancelled).0.stage)) >= state_rank(
            SchedulerState::Cancelling,
        ),
        holds_guard(scheduler.stage) ==> step(scheduler, Event::Cancelled) == (
            SchedulerView {
                stage: Stage::Cancelling { reason: ExitReason::Shutdown },
                temperature: scheduler.temperature,
            },
            Action::ReleaseGuard,
        ),
        state_rank(state_of(scheduler.stage)) >= state_rank(SchedulerState::Cancelling) ==> step(
            scheduler,
            Event::Cancelled,
        ) == (scheduler, Action::Proceed),
{
}

/// Once the daemon is on its way out it stays so: over any further events it
/// never runs again and hands out no command.
pub proof fn lemma_no_command_after_cancellation(scheduler: SchedulerView, events: Seq<Event>)
    requires
        state_rank(state_of(scheduler.stage)) >= state_rank(SchedulerState::Cancelling),
    ensures
        state_rank(state_of(run(scheduler, events).stage)) >= state_rank(
            SchedulerState::Cancelling,
        ),
        commands(scheduler, events) == Seq::<FilterCommand>::empty(),
    decreases events.len(),
{
    if events.len() > 0 {
        lemma_no_command_after_cancellation(scheduler, events.drop_last());
        lemma_life_never_turns_back(run(scheduler, events.drop_last()), events.last());
        lemma_commands_only_while_running(run(scheduler, events.drop_last()), events.last());
    }
}

/// The instance lock is never lost and never given back twice: over any
/// events, the locks taken, together with the one held at the outset, are
/// those given back together with the one still held.  The scheduler takes
/// note of a lock only during setup, and only once.
pub proof fn lemma_guard_is_conserved(scheduler: SchedulerView, events: Seq<Event>)
    ensures
        (if holds_guard(scheduler.stage) {
            1nat
        } else {
            0nat
        }) + acquisitions(scheduler, events) == releases(scheduler, events) + (if holds_guard(
            run(scheduler, events).stage,
        ) {
            1nat
        } else {
            0nat
        }),
        acquisitions(scheduler, events) <= (if scheduler.stage == (Stage::Starting {
            guard_held: false,
        }) {
            1nat
        } else {
            0nat
        }),
        acquisitions(scheduler, events) == 1 || scheduler.stage != (Stage::Starting {
            guard_held: false,
        }) ==> run(scheduler, events).stage != (Stage::Starting { guard_held: false }),
    decreases events.len(),
{
    if events.len() > 0 {
        lemma_guard_is_conserved(scheduler, events.drop_last());
    }
}

/// From a fresh scheduler, whatever happens, the lock is asked back at most
/// once; and when the daemon has stopped, it was asked back exactly once if
/// it was ever taken, and never if it was not.  So cleanup runs exactly once
/// on every path out, and not at all where there is nothing to clean up.
pub proof fn lemma_guard_released_exactly_once(temperature: i32, events: Seq<Event>)
    ensures
        ({
            let fresh = SchedulerView { stage: Stage::Starting { guard_held: false }, temperature };
            &&& releases(fresh, events) <= 1
            &&& state_of(run(fresh, events).stage) == SchedulerState::Stopped ==> releases(
                fresh,
                events,
            ) == acquisitions(fresh, events)
        }),
{
    let fresh = SchedulerView { stage: Stage::Starting { guard_held: false }, temperature };
    lemma_guard_is_conserved(fresh, events);
}

/// The daemon leaves only with empty hands: whenever the scheduler asks its
/// caller to exit, it holds no lock afterwards, and it has stopped.
pub proof fn lemma_exit_holds_no_guard(scheduler: SchedulerView, event: Event)
    ensures
        step(scheduler, event).1 matches Action::Exit(reason) ==> step(scheduler, event).0.stage
            == (Stage::Stopped { reason }),
        !holds_guard(scheduler.stage) ==> step(scheduler, event).1 != Action::ReleaseGuard,
        step(scheduler, event).1 == Action::ReleaseGuard ==> state_of(
            step(scheduler, event).0.stage,
        ) == SchedulerState::Cancelling,
{
}

} // verus!
