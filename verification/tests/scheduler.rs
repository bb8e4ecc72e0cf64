use hyprsunset_overdrive::command::FilterCommand;
use hyprsunset_overdrive::scheduler::{
    Action, Event, ExitReason, Scheduler, SchedulerState, Stage, SETTLE_SECONDS,
};
use hyprsunset_overdrive::time::TimeOfDay;

fn hms(hour: u32, minute: u32, second: u32) -> TimeOfDay {
    TimeOfDay::new(hour * 3600 + minute * 60 + second, 0).unwrap()
}

fn clock(hour: u32, minute: u32, second: u32) -> Event {
    Event::Clock {
        now: hms(hour, minute, second),
        sunrise: hms(5, 59, 54),
        sunset: hms(18, 7, 8),
    }
}

fn running(temperature: i32) -> Scheduler {
    let mut scheduler = Scheduler::new(temperature);
    assert_eq!(scheduler.step(Event::GuardAcquired), Action::Proceed);
    assert_eq!(scheduler.step(Event::SetupComplete), Action::ReadClock);
    scheduler
}

#[test]
fn a_fresh_scheduler_is_starting_without_the_lock() {
    let scheduler = Scheduler::new(3000);
    assert_eq!(scheduler.state(), SchedulerState::Starting);
    assert_eq!(scheduler.stage(), Stage::Starting { guard_held: false });
    assert_eq!(scheduler.temperature(), 3000);
}

#[test]
fn setup_leads_to_the_first_reading_of_the_clock() {
    let mut scheduler = Scheduler::new(3000);
    assert_eq!(scheduler.step(Event::GuardAcquired), Action::Proceed);
    assert_eq!(scheduler.stage(), Stage::Starting { guard_held: true });
    assert_eq!(scheduler.step(Event::SetupComplete), Action::ReadClock);
    assert_eq!(scheduler.state(), SchedulerState::Running);
    assert_eq!(scheduler.stage(), Stage::Deciding);
}

#[test]
fn a_night_cycle_enables_waits_settles_and_reads_the_clock_again() {
    let mut scheduler = running(3000);
    assert_eq!(
        scheduler.step(clock(1, 30, 0)),
        Action::Apply(FilterCommand::Enable(3000))
    );
    assert_eq!(
        scheduler.stage(),
        Stage::Applying {
            wait_seconds: 16_194
        }
    );
    assert_eq!(
        scheduler.step(Event::ControlReturned { delivered: true }),
        Action::Wait { seconds: 16_194 }
    );
    assert_eq!(scheduler.stage(), Stage::Waiting);
    assert_eq!(
        scheduler.step(Event::WaitElapsed),
        Action::Wait { seconds: 60 }
    );
    assert_eq!(scheduler.stage(), Stage::Settling);
    assert_eq!(scheduler.step(Event::WaitElapsed), Action::ReadClock);
    assert_eq!(scheduler.stage(), Stage::Deciding);
    assert_eq!(scheduler.state(), SchedulerState::Running);
    assert_eq!(SETTLE_SECONDS, 60);
}

#[test]
fn a_day_cycle_disables_and_waits_for_sunset() {
    let mut scheduler = running(3000);
    assert_eq!(
        scheduler.step(clock(10, 30, 0)),
        Action::Apply(FilterCommand::Disable)
    );
    assert_eq!(
        scheduler.step(Event::ControlReturned { delivered: true }),
        Action::Wait { seconds: 27_428 }
    );
}

#[test]
fn an_evening_cycle_enables_and_waits_for_the_end_of_the_day() {
    let mut scheduler = running(4000);
    assert_eq!(
        scheduler.step(clock(23, 30, 0)),
        Action::Apply(FilterCommand::Enable(4000))
    );
    assert_eq!(
        scheduler.step(Event::ControlReturned { delivered: true }),
        Action::Wait { seconds: 1_799 }
    );
}

#[test]
fn a_failed_command_does_not_stop_the_loop() {
    let mut scheduler = running(3000);
    assert_eq!(
        scheduler.step(clock(1, 30, 0)),
        Action::Apply(FilterCommand::Enable(3000))
    );
    assert_eq!(
        scheduler.step(Event::ControlReturned { delivered: false }),
        Action::Wait { seconds: 16_194 }
    );
    assert_eq!(scheduler.state(), SchedulerState::Running);
    assert_eq!(
        scheduler.step(Event::WaitElapsed),
        Action::Wait { seconds: 60 }
    );
    assert_eq!(scheduler.step(Event::WaitElapsed), Action::ReadClock);
    assert_eq!(
        scheduler.step(clock(6, 1, 0)),
        Action::Apply(FilterCommand::Disable)
    );
    assert_eq!(
        scheduler.step(Event::ControlReturned { delivered: true }),
        Action::Wait { seconds: 43_568 }
    );
}

#[test]
fn a_shutdown_during_the_wait_skips_the_settle_time() {
    let mut scheduler = running(3000);
    scheduler.step(clock(1, 30, 0));
    scheduler.step(Event::ControlReturned { delivered: true });
    assert_eq!(scheduler.step(Event::Cancelled), Action::ReleaseGuard);
    assert_eq!(scheduler.state(), SchedulerState::Cancelling);
    assert_eq!(
        scheduler.step(Event::GuardReleased),
        Action::Exit(ExitReason::Shutdown)
    );
    assert_eq!(scheduler.state(), SchedulerState::Stopped);
    assert_eq!(
        scheduler.stage(),
        Stage::Stopped {
            reason: ExitReason::Shutdown
        }
    );
}

#[test]
fn a_shutdown_is_honoured_at_every_stage_of_the_loop() {
    for steps in 0..4 {
        let mut scheduler = running(3000);
        let events = [
            clock(1, 30, 0),
            Event::ControlReturned { delivered: true },
            Event::WaitElapsed,
            Event::WaitElapsed,
        ];
        for event in events.iter().take(steps) {
            scheduler.step(*event);
        }
        assert_eq!(scheduler.state(), SchedulerState::Running);
        assert_eq!(scheduler.step(Event::Cancelled), Action::ReleaseGuard);
        assert_eq!(scheduler.state(), SchedulerState::Cancelling);
    }
}

#[test]
fn repeated_shutdowns_release_the_lock_once() {
    let mut scheduler = running(3000);
    let mut releases = 0;
    for event in [
        Event::Cancelled,
        Event::Cancelled,
        Event::Failed,
        Event::GuardReleased,
        Event::Cancelled,
        Event::GuardReleased,
    ] {
        if scheduler.step(event) == Action::ReleaseGuard {
            releases += 1;
        }
    }
    assert_eq!(releases, 1);
    assert_eq!(scheduler.state(), SchedulerState::Stopped);
}

#[test]
fn nothing_is_commanded_once_cancelling() {
    let mut scheduler = running(3000);
    assert_eq!(scheduler.step(Event::Cancelled), Action::ReleaseGuard);
    let cancelling = scheduler.stage();
    for event in [
        clock(1, 30, 0),
        Event::ControlReturned { delivered: true },
        Event::WaitElapsed,
        Event::SetupComplete,
        Event::GuardAcquired,
        Event::GuardContended,
    ] {
        assert_eq!(scheduler.step(event), Action::Proceed);
        assert_eq!(scheduler.stage(), cancelling);
    }
}

#[test]
fn a_stopped_scheduler_stays_stopped() {
    let mut scheduler = running(3000);
    scheduler.step(Event::Cancelled);
    scheduler.step(Event::GuardReleased);
    let stopped = scheduler.stage();
    for event in [
        Event::GuardAcquired,
        Event::GuardContended,
        Event::SetupComplete,
        Event::Failed,
        clock(1, 30, 0),
        Event::ControlReturned { delivered: false },
        Event::WaitElapsed,
        Event::Cancelled,
        Event::GuardReleased,
    ] {
        assert_eq!(scheduler.step(event), Action::Proceed);
        assert_eq!(scheduler.stage(), stopped);
    }
}

#[test]
fn a_second_instance_leaves_without_touching_the_lock() {
    let mut scheduler = Scheduler::new(3000);
    assert_eq!(
        scheduler.step(Event::GuardContended),
        Action::Exit(ExitReason::AlreadyRunning)
    );
    assert_eq!(scheduler.state(), SchedulerState::Stopped);
}

#[test]
fn of_two_instances_one_runs_and_one_finds_the_other_running() {
    let mut first = Scheduler::new(3000);
    let mut second = Scheduler::new(3000);
    assert_eq!(first.step(Event::GuardAcquired), Action::Proceed);
    assert_eq!(
        second.step(Event::GuardContended),
        Action::Exit(ExitReason::AlreadyRunning)
    );
    assert_eq!(first.step(Event::SetupComplete), Action::ReadClock);
    assert_eq!(first.state(), SchedulerState::Running);
    assert_eq!(second.state(), SchedulerState::Stopped);
}

#[test]
fn a_setup_failure_before_the_lock_leaves_at_once() {
    let mut scheduler = Scheduler::new(3000);
    assert_eq!(
        scheduler.step(Event::Failed),
        Action::Exit(ExitReason::Failed)
    );
    assert_eq!(scheduler.state(), SchedulerState::Stopped);
}

#[test]
fn a_setup_failure_after_the_lock_gives_the_lock_back() {
    let mut scheduler = Scheduler::new(3000);
    scheduler.step(Event::GuardAcquired);
    assert_eq!(scheduler.step(Event::Failed), Action::ReleaseGuard);
    assert_eq!(scheduler.state(), SchedulerState::Cancelling);
    assert_eq!(
        scheduler.step(Event::GuardReleased),
        Action::Exit(ExitReason::Failed)
    );
}

#[test]
fn setup_cannot_complete_without_the_lock() {
    let mut scheduler = Scheduler::new(3000);
    assert_eq!(
        scheduler.step(Event::SetupComplete),
        Action::Exit(ExitReason::Failed)
    );
    assert_eq!(scheduler.state(), SchedulerState::Stopped);
}

#[test]
fn no_command_goes_out_while_starting() {
    let mut scheduler = Scheduler::new(3000);
    assert_eq!(scheduler.step(clock(1, 30, 0)), Action::Proceed);
    assert_eq!(scheduler.state(), SchedulerState::Starting);
    scheduler.step(Event::GuardAcquired);
    assert_eq!(scheduler.step(clock(1, 30, 0)), Action::Proceed);
    assert_eq!(scheduler.state(), SchedulerState::Starting);
}

#[test]
fn a_second_clock_reading_does_not_send_a_second_command() {
    let mut scheduler = running(3000);
    assert_eq!(
        scheduler.step(clock(1, 30, 0)),
        Action::Apply(FilterCommand::Enable(3000))
    );
    assert_eq!(scheduler.step(clock(10, 30, 0)), Action::Proceed);
    assert_eq!(
        scheduler.stage(),
        Stage::Applying {
            wait_seconds: 16_194
        }
    );
}

#[test]
fn a_failure_while_running_ends_in_cleanup() {
    let mut scheduler = running(3000);
    scheduler.step(clock(1, 30, 0));
    assert_eq!(scheduler.step(Event::Failed), Action::ReleaseGuard);
    assert_eq!(
        scheduler.step(Event::GuardReleased),
        Action::Exit(ExitReason::Failed)
    );
}

#[test]
fn the_lock_is_taken_note_of_once() {
    let mut scheduler = Scheduler::new(3000);
    assert_eq!(scheduler.step(Event::GuardAcquired), Action::Proceed);
    assert_eq!(scheduler.step(Event::GuardAcquired), Action::Proceed);
    assert_eq!(scheduler.stage(), Stage::Starting { guard_held: true });
}
