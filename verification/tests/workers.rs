//! Worker-side state: the barrier group's bookkeeping under both panic
//! policies, the exit flag, frame pacing, timing records, and the worker
//! decision functions.

use open_modular::perf::Timing;
use open_modular::runtime::{IoStep, ProcessControl, SERVICE_INTERVAL, io_step};
use open_modular::sync::{BarrierGroupData, BarrierGroupPanic, Exit};
use open_modular::time::Timer;

#[test]
fn barrier_releases_when_all_active_wait() {
    let mut data = BarrierGroupData::default();
    // Three workers join the group.
    data.join();
    data.join();
    data.join();
    assert_eq!(data.active, 3);
    // Two arrive: the barrier stays closed.
    data.arrive();
    data.arrive();
    assert!(!data.release());
    assert_eq!(data.generation, 0);
    // The third arrives: the barrier opens, the generation turns, the
    // waiting count starts afresh.
    data.arrive();
    assert!(data.release());
    assert_eq!(data.generation, 1);
    assert_eq!(data.waiting, 0);
}

#[test]
fn leaving_participant_unblocks_the_rest() {
    let mut data = BarrierGroupData::default();
    data.join();
    data.join();
    data.arrive();
    assert!(!data.release());
    // The other participant drops out without panicking: the remaining
    // waiter is enough to open the barrier.
    data.leave(false, BarrierGroupPanic::Continue);
    assert!(!data.poisoned);
    assert!(data.release());
    assert_eq!(data.generation, 1);
}

#[test]
fn poison_policy_poisons_and_releases() {
    let mut data = BarrierGroupData::default();
    data.join();
    data.join();
    data.join();
    data.arrive();
    // One worker's thread panics under the poison policy: the group is
    // poisoned, and a release opens the barrier at once even though not
    // everyone arrived, so the waiters observe the failure and exit.
    data.leave(true, BarrierGroupPanic::Poison);
    assert!(data.poisoned);
    assert!(data.release());
    // The poison stays for every later arrival.
    data.arrive();
    assert!(data.release());
    assert!(data.poisoned);
}

#[test]
fn continue_policy_merely_shrinks_the_group() {
    let mut data = BarrierGroupData::default();
    data.join();
    data.join();
    data.leave(true, BarrierGroupPanic::Continue);
    assert!(!data.poisoned);
    assert_eq!(data.active, 1);
    data.arrive();
    assert!(data.release());
}

#[test]
fn exit_flag_round_trip() {
    let mut exit = Exit::new();
    assert!(!exit.triggered());
    let observer = exit.clone();
    exit.trigger();
    assert!(exit.triggered());
    // Clones share the one flag.
    assert!(observer.triggered());
}

#[test]
fn timer_paces_one_interval_ahead() {
    let mut timer = Timer::new(1_000, 250);
    assert_eq!(timer.instant, 1_250);
    assert_eq!(timer.remaining(1_100), 150);
    assert_eq!(timer.remaining(1_250), 0);
    assert_eq!(timer.remaining(2_000), 0);
    timer.reset(2_000);
    assert_eq!(timer.instant, 2_250);
    assert_eq!(timer.interval, 250);
}

#[test]
fn timing_average() {
    let timing = Timing::new(1_000_000, 200, "compute/compute".to_string());
    assert_eq!(timing.average(), 5_000);
    assert_eq!(timing.iterations, 200);
    assert_eq!(timing.name, "compute/compute");
}

#[test]
fn io_step_decisions() {
    assert_eq!(io_step(0, false), IoStep::Tick);
    assert_eq!(io_step(SERVICE_INTERVAL - 1, true), IoStep::Tick);
    assert_eq!(io_step(SERVICE_INTERVAL, false), IoStep::Serve);
    assert_eq!(io_step(SERVICE_INTERVAL, true), IoStep::Exit);
    assert_eq!(io_step(SERVICE_INTERVAL + 10, false), IoStep::Serve);
}

#[test]
fn process_control_compares() {
    assert_eq!(ProcessControl::Continue, ProcessControl::Continue);
    assert_ne!(ProcessControl::Continue, ProcessControl::Exit);
}
