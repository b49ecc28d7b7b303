use ferris_watch::command::ExecResult;
use ferris_watch::signal::register;
use ferris_watch::signal::InterruptFlag;
use ferris_watch::watch::Watch;
use ferris_watch::watch::WatchAction;
use ferris_watch::watch::WatchEvent;
use ferris_watch::watch::WatchState;

#[test]
fn interrupt_mid_delay_stops_within_one_slice() {
    let mut w = Watch::new(20);
    w.step(WatchEvent::Ran);
    // seven slices pass with the flag clear
    let mut slice: u32 = 0;
    while slice < 7 {
        assert_eq!(w.next_action(), WatchAction::SleepSlice);
        w.step(WatchEvent::Slept { interrupted: false });
        slice += 1;
    }
    // the flag is set during the eighth slice: that very step stops the
    // loop, with twelve slices of the interval still unslept
    assert_eq!(w.next_action(), WatchAction::SleepSlice);
    w.step(WatchEvent::Slept { interrupted: true });
    assert!(w.is_stopped());
    assert_eq!(w.state, WatchState::Stopped { failed: false });
    assert_eq!(w.next_action(), WatchAction::ExitClean);
}

#[test]
fn one_execution_when_interrupted_after_first_cycle() {
    // command ["echo", "x"] with an interval of a tenth of a second: one slice
    let mut w = Watch::new(1);
    let mut flag = InterruptFlag::new();
    let mut executions: u32 = 0;
    loop {
        match w.next_action() {
            WatchAction::RunCommand => {
                executions += 1;
                let r = ExecResult::from_capture(Some(0), b"x\n".to_vec());
                assert_eq!(r.text.as_str(), "x\n");
                w.step(WatchEvent::Ran);
                // the user interrupts right after the first cycle completes
                flag.signal_interrupt();
            }
            WatchAction::SleepSlice => {
                w.step(WatchEvent::Slept {
                    interrupted: flag.is_set(),
                });
            }
            WatchAction::CheckFlag => {
                w.step(WatchEvent::Checked {
                    interrupted: flag.is_set(),
                });
            }
            WatchAction::ExitClean | WatchAction::ExitError => break,
        }
    }
    assert_eq!(executions, 1);
    assert_eq!(w.state, WatchState::Stopped { failed: false });
}

#[test]
fn launch_error_stops_before_a_first_cycle() {
    let mut w = Watch::new(20);
    assert_eq!(w.next_action(), WatchAction::RunCommand);
    w.step(WatchEvent::LaunchFailed);
    assert!(w.is_stopped());
    assert_eq!(w.state, WatchState::Stopped { failed: true });
    // the only action left is to exit with a non-zero status
    assert_eq!(w.next_action(), WatchAction::ExitError);
}

#[test]
fn zero_interval_still_checks_the_flag_once() {
    let mut w = Watch::new(0);
    w.step(WatchEvent::Ran);
    // no slice to sleep, yet the delay reads the flag once
    assert_eq!(w.next_action(), WatchAction::CheckFlag);
    w.step(WatchEvent::Checked { interrupted: true });
    assert_eq!(w.state, WatchState::Stopped { failed: false });
}

#[test]
fn teardown_happens_once_on_interruption() {
    let mut acquires: u32 = 0;
    let mut releases: u32 = 0;
    acquires += 1; // the terminal session opens before the loop
    let mut w = Watch::new(0);
    let mut flag = InterruptFlag::new();
    loop {
        match w.next_action() {
            WatchAction::RunCommand => {
                w.step(WatchEvent::Ran);
                flag.signal_interrupt();
            }
            WatchAction::SleepSlice => {
                w.step(WatchEvent::Slept {
                    interrupted: flag.is_set(),
                });
            }
            WatchAction::CheckFlag => {
                w.step(WatchEvent::Checked {
                    interrupted: flag.is_set(),
                });
            }
            WatchAction::ExitClean | WatchAction::ExitError => break,
        }
    }
    releases += 1; // the scoped release runs when the loop is left
    assert_eq!((acquires, releases), (1, 1));
}

#[test]
fn teardown_happens_once_on_launch_error() {
    let mut acquires: u32 = 0;
    let mut releases: u32 = 0;
    acquires += 1; // the terminal session opens before the loop
    let mut w = Watch::new(20);
    loop {
        match w.next_action() {
            WatchAction::RunCommand => {
                w.step(WatchEvent::LaunchFailed);
            }
            WatchAction::SleepSlice => {
                w.step(WatchEvent::Slept { interrupted: false });
            }
            WatchAction::CheckFlag => {
                w.step(WatchEvent::Checked { interrupted: false });
            }
            WatchAction::ExitClean | WatchAction::ExitError => break,
        }
    }
    releases += 1; // the scoped release runs on the error path too
    assert_eq!((acquires, releases), (1, 1));
}

#[test]
fn cycles_are_idempotent_for_a_deterministic_command() {
    let mut w = Watch::new(2);
    let mut flag = InterruptFlag::new();
    let mut results: Vec<(Option<i32>, String)> = Vec::new();
    loop {
        match w.next_action() {
            WatchAction::RunCommand => {
                // a deterministic command: the same exit status and the
                // same bytes on every cycle, nothing carried between them
                let r = ExecResult::from_capture(Some(0), b"same\n".to_vec());
                results.push((r.code, r.text));
                w.step(WatchEvent::Ran);
                // every cycle starts its delay with the full budget
                assert_eq!(w.state, WatchState::Delay { remaining: 2 });
                if results.len() == 3 {
                    flag.signal_interrupt();
                }
            }
            WatchAction::SleepSlice => {
                w.step(WatchEvent::Slept {
                    interrupted: flag.is_set(),
                });
            }
            WatchAction::CheckFlag => {
                w.step(WatchEvent::Checked {
                    interrupted: flag.is_set(),
                });
            }
            WatchAction::ExitClean | WatchAction::ExitError => break,
        }
    }
    assert_eq!(results.len(), 3);
    for pair in &results {
        assert_eq!(pair.0, Some(0));
        assert_eq!(pair.1.as_str(), "same\n");
    }
}

#[test]
fn fallback_registration_leaves_the_flag_as_it_was() {
    let mut flag = InterruptFlag::new();
    register(2, &mut flag);
    assert!(!flag.is_set());
    flag.signal_interrupt();
    register(2, &mut flag);
    assert!(flag.is_set());
}
