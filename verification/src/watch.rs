//! The watch loop as a state machine.
//!
//! The machine decides; the caller performs. Each turn, the caller asks for
//! the next action, performs it — spawn the command and wait, sleep one
//! slice, read the interrupt flag — and feeds the outcome back as an event.
//! All the outside work stays with the caller; every decision is made, and
//! proved, here.

use vstd::prelude::*;

verus! {

/// Where the loop stands. It starts at `Execute` and ends, exactly once,
/// at `Stopped`.
#[derive(Clone, Copy, Debug, PartialEq, Eq)]
pub enum WatchState {
    /// About to run the command once.
    Execute,
    /// Between cycles, with this many whole slices still to sleep.
    Delay { remaining: u64 },
    /// Terminal: the loop is over. `failed` records a launch error.
    Stopped { failed: bool },
}

/// What the caller is to do next.
#[derive(Clone, Copy, Debug, PartialEq, Eq)]
pub enum WatchAction {
    /// Spawn the command, wait for it, and show its result.
    RunCommand,
    /// Sleep for one slice, then read the interrupt flag.
    SleepSlice,
    /// Read the interrupt flag without sleeping.
    CheckFlag,
    /// Stop cleanly: the user interrupted the loop.
    ExitClean,
    /// Stop with an error: the command could not be launched.
    ExitError,
}

/// What came of the caller's last action.
#[derive(Clone, Copy, Debug, PartialEq, Eq)]
pub enum WatchEvent {
    /// The command ran to completion, whatever its exit status.
    Ran,
    /// The command could not be spawned.
    LaunchFailed,
    /// One slice was slept; the interrupt flag read this afterwards.
    Slept { interrupted: bool },
    /// The flag was read without sleeping, at the end of a delay.
    Checked { interrupted: bool },
}

/// The action the machine asks for in each state.
pub open spec fn next_action_spec(s: WatchState) -> WatchAction {
    match s {
        WatchState::Execute => WatchAction::RunCommand,
        WatchState::Delay { remaining } => if remaining > 0 {
            WatchAction::SleepSlice
        } else {
            WatchAction::CheckFlag
        },
        WatchState::Stopped { failed } => if failed {
            WatchAction::ExitError
        } else {
            WatchAction::ExitClean
        },
    }
}

/// Whether the event answers the action that `next_action_spec` asked for
/// in this state.
pub open spec fn event_fits(s: WatchState, e: WatchEvent) -> bool {
    match (s, e) {
        (WatchState::Execute, WatchEvent::Ran) => true,
        (WatchState::Execute, WatchEvent::LaunchFailed) => true,
        (WatchState::Delay { remaining }, WatchEvent::Slept { .. }) => remaining > 0,
        (WatchState::Delay { remaining }, WatchEvent::Checked { .. }) => remaining == 0,
        _ => false,
    }
}

/// Whether the event reports the interrupt flag set.
pub open spec fn event_interrupted(e: WatchEvent) -> bool {
    ||| e matches WatchEvent::Slept { interrupted } && interrupted
    ||| e matches WatchEvent::Checked { interrupted } && interrupted
}

/// The transition relation of the loop. A completed run starts a delay of
/// the full slice budget; a launch failure stops the loop with an error; a
/// slice slept with the flag clear shortens the delay by one; any check
/// that sees the flag set stops the loop cleanly at once; the final check
/// of an undisturbed delay starts the next cycle. An event that does not
/// answer the pending action changes nothing.
pub open spec fn step_spec(slices: u64, s: WatchState, e: WatchEvent) -> WatchState {
    match (s, e) {
        (WatchState::Execute, WatchEvent::Ran) => WatchState::Delay { remaining: slices },
        (WatchState::Execute, WatchEvent::LaunchFailed) => WatchState::Stopped { failed: true },
        (WatchState::Delay { remaining }, WatchEvent::Slept { interrupted }) => if remaining == 0 {
            s
        } else if interrupted {
            WatchState::Stopped { failed: false }
        } else {
            WatchState::Delay { remaining: (remaining - 1) as u64 }
        },
        (WatchState::Delay { remaining }, WatchEvent::Checked { interrupted }) => if remaining != 0 {
            s
        } else if interrupted {
            WatchState::Stopped { failed: false }
        } else {
            WatchState::Execute
        },
        _ => s,
    }
}

/// The watch loop's whole mutable state: the fixed slice budget of one
/// delay, and where the loop stands.
#[derive(Clone, Copy, Debug)]
pub struct Watch {
    /// Slices of one delay, fixed at startup from the interval.
    pub slices: u64,
    /// Where the loop stands now.
    pub state: WatchState,
}

impl Watch {
    /// A loop about to run its first cycle.
    pub fn new(slices: u64) -> (r: Watch)
        ensures
            r.slices == slices,
            r.state == WatchState::Execute,
    {
        Watch { slices, state: WatchState::Execute }
    }

    /// What the caller is to do next.
    pub fn next_action(&self) -> (r: WatchAction)
        ensures
            r == next_action_spec(self.state),
    {
        match self.state {
            WatchState::Execute => WatchAction::RunCommand,
            WatchState::Delay { remaining } => if remaining > 0 {
                WatchAction::SleepSlice
            } else {
                WatchAction::CheckFlag
            },
            WatchState::Stopped { failed } => if failed {
                WatchAction::ExitError
            } else {
                WatchAction::ExitClean
            },
        }
    }

    /// Whether the loop has stopped.
    pub fn is_stopped(&self) -> (r: bool)
        ensures
            r == (self.state is Stopped),
    {
        match self.state {
            WatchState::Stopped { .. } => true,
            _ => false,
        }
    }

    /// Feed back the outcome of the last action and take one step.
    pub fn step(&mut self, event: WatchEvent)
        ensures
            final(self).slices == old(self).slices,
            final(self).state == step_spec(old(self).slices, old(self).state, event),
    {
        let next = match (&self.state, &event) {
            (WatchState::Execute, WatchEvent::Ran) => WatchState::Delay { remaining: self.slices },
            (WatchState::Execute, WatchEvent::LaunchFailed) => WatchState::Stopped { failed: true },
            (WatchState::Delay { remaining }, WatchEvent::Slept { interrupted }) => {
                let r = *remaining;
                if r == 0 {
                    WatchState::Delay { remaining: r }
                } else if *interrupted {
                    WatchState::Stopped { failed: false }
                } else {
                    WatchState::Delay { remaining: r - 1 }
                }
            },
            (WatchState::Delay { remaining }, WatchEvent::Checked { interrupted }) => {
                let r = *remaining;
                if r != 0 {
                    WatchState::Delay { remaining: r }
                } else if *interrupted {
                    WatchState::Stopped { failed: false }
                } else {
                    WatchState::Execute
                }
            },
            (WatchState::Delay { remaining }, _) => WatchState::Delay { remaining: *remaining },
            (WatchState::Stopped { failed }, _) => WatchState::Stopped { failed: *failed },
            (WatchState::Execute, _) => WatchState::Execute,
        };
        self.state = next;
    }
}

/// The state after a whole sequence of events, one step at a time.
pub open spec fn run_steps(slices: u64, s: WatchState, events: Seq<WatchEvent>) -> WatchState
    decreases events.len(),
{
    if events.len() == 0 {
        s
    } else {
        run_steps(slices, step_spec(slices, s, events[0]), events.drop_first())
    }
}

/// The events of one undisturbed delay: `n` slices slept with the flag
/// clear, then the final check, also clear.
pub open spec fn quiet_delay_events(n: u64) -> Seq<WatchEvent>
    decreases n,
{
    if n == 0 {
        seq![WatchEvent::Checked { interrupted: false }]
    } else {
        seq![WatchEvent::Slept { interrupted: false }] + quiet_delay_events((n - 1) as u64)
    }
}

/// Interruption is seen within one slice: in any delay state, as soon as a
/// flag reading reports the flag set — after a slept slice or at the final
/// check — the very next state is `Stopped`. The loop never waits out the
/// remaining interval.
pub proof fn lemma_interrupt_stops_within_one_slice(slices: u64, s: WatchState, e: WatchEvent)
    requires
        s is Delay,
        event_fits(s, e),
        event_interrupted(e),
    ensures
        step_spec(slices, s, e) == (WatchState::Stopped { failed: false }),
{
}

/// A launch error is fatal and immediate: from `Execute`, the failure event
/// goes straight to `Stopped` with an error, and the only action left there
/// is to exit with a non-zero status. No delay and no further cycle happens.
pub proof fn lemma_launch_error_is_fatal(slices: u64)
    ensures
        step_spec(slices, WatchState::Execute, WatchEvent::LaunchFailed)
            == (WatchState::Stopped { failed: true }),
        next_action_spec(WatchState::Stopped { failed: true }) == WatchAction::ExitError,
{
}

/// `Stopped` is terminal: no event moves the machine out of it. The driving
/// loop therefore exits exactly once, and teardown scoped to it runs
/// exactly once, whether the stop came from an interrupt or from a launch
/// error.
pub proof fn lemma_stopped_is_terminal(slices: u64, s: WatchState, e: WatchEvent)
    requires
        s is Stopped,
    ensures
        step_spec(slices, s, e) == s,
{
}

/// A delay checks the flag at least once even with a zero slice budget: in
/// every delay state the pending action reads the flag, sleeping first only
/// while slices remain.
pub proof fn lemma_delay_always_checks(s: WatchState)
    requires
        s is Delay,
    ensures
        next_action_spec(s) == WatchAction::SleepSlice || next_action_spec(s) == WatchAction::CheckFlag,
        s->remaining == 0 ==> next_action_spec(s) == WatchAction::CheckFlag,
{
}

/// An interrupt during the first delay means exactly one execution: after
/// one command run, a slice whose flag reading reports the interrupt stops
/// the loop for good, so no second `RunCommand` is ever asked for.
pub proof fn lemma_one_run_when_interrupted_in_first_delay(slices: u64, e: WatchEvent)
    requires
        slices > 0,
        e is Slept,
        event_interrupted(e),
    ensures
        run_steps(slices, WatchState::Execute, seq![WatchEvent::Ran, e])
            == (WatchState::Stopped { failed: false }),
{
    let events = seq![WatchEvent::Ran, e];
    let stopped = WatchState::Stopped { failed: false };
    let mid = WatchState::Delay { remaining: slices };
    assert(events[0] == WatchEvent::Ran);
    assert(step_spec(slices, WatchState::Execute, WatchEvent::Ran) == mid);
    assert(events.drop_first() =~= seq![e]);
    assert(run_steps(slices, WatchState::Execute, events)
        == run_steps(slices, mid, seq![e]));
    assert(seq![e][0] == e);
    assert(step_spec(slices, mid, e) == stopped);
    assert(seq![e].drop_first() =~= Seq::<WatchEvent>::empty());
    assert(run_steps(slices, mid, seq![e]) == run_steps(slices, stopped, seq![e].drop_first()));
    assert(run_steps(slices, stopped, seq![e].drop_first()) == stopped);
}

/// Consecutive cycles start alike: one command run followed by an
/// undisturbed delay returns the machine exactly to `Execute`, with the
/// slice budget untouched — nothing accumulates from one cycle into the
/// next.
pub proof fn lemma_quiet_cycle_returns_to_start(slices: u64)
    ensures
        run_steps(slices, WatchState::Execute, seq![WatchEvent::Ran] + quiet_delay_events(slices))
            == WatchState::Execute,
{
    let events = seq![WatchEvent::Ran] + quiet_delay_events(slices);
    assert(events[0] == WatchEvent::Ran);
    assert(events.drop_first() =~= quiet_delay_events(slices));
    lemma_quiet_delay_completes(slices, slices);
}

/// An undisturbed delay of `n` remaining slices ends back at `Execute`.
proof fn lemma_quiet_delay_completes(slices: u64, n: u64)
    ensures
        run_steps(slices, WatchState::Delay { remaining: n }, quiet_delay_events(n))
            == WatchState::Execute,
    decreases n,
{
    let s = WatchState::Delay { remaining: n };
    let events = quiet_delay_events(n);
    if n == 0 {
        assert(events =~= seq![WatchEvent::Checked { interrupted: false }]);
        assert(events[0] == WatchEvent::Checked { interrupted: false });
        assert(step_spec(slices, s, events[0]) == WatchState::Execute);
        assert(events.drop_first() =~= Seq::<WatchEvent>::empty());
        assert(run_steps(slices, WatchState::Execute, events.drop_first()) == WatchState::Execute);
    } else {
        assert(events[0] == WatchEvent::Slept { interrupted: false });
        assert(step_spec(slices, s, events[0]) == (WatchState::Delay { remaining: (n - 1) as u64 }));
        assert(events.drop_first() =~= quiet_delay_events((n - 1) as u64));
        lemma_quiet_delay_completes(slices, (n - 1) as u64);
        assert(run_steps(
            slices,
            WatchState::Delay { remaining: (n - 1) as u64 },
            events.drop_first(),
        ) == WatchState::Execute);
    }
}

} // verus!
