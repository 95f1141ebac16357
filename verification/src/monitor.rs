//! The monitor loop's state machine.
//!
//! Each cycle queries the metrics source, renders a frame, and polls
//! for one input event. The machine has two states: it keeps running
//! until it observes a quit key or an input/output failure, and once
//! stopped it is stopped for good. Tearing the terminal down happens
//! exactly once, on the step that stops the machine.

use vstd::prelude::*;

verus! {

/// How long, in milliseconds, one input poll waits at most. This
/// bounded wait is the loop's only suspension point and caps the
/// refresh cadence at roughly four frames per second.
pub const POLL_TIMEOUT_MILLIS: u64 = 250;

/// A keypress, reduced to what the monitor distinguishes.
#[derive(Clone, Copy, Debug, PartialEq, Eq, Structural)]
pub enum Key {
    Char(char),
    Esc,
    OtherKey,
}

/// State of the monitor loop. `Stopped` is terminal.
#[derive(Clone, Copy, Debug, PartialEq, Eq, Structural)]
pub enum LoopState {
    Running,
    Stopped,
}

/// What one cycle observed: a failure of the metrics query, the render
/// or the input poll, a keypress, or a poll that timed out.
#[derive(Clone, Copy, Debug, PartialEq, Eq, Structural)]
pub enum LoopEvent {
    MetricsFailed,
    RenderFailed,
    InputFailed,
    KeyPressed(Key),
    NoInput,
}

/// What the loop must do after a step: go on to the next cycle (query,
/// render, poll again), or tear the terminal down and exit. Once the
/// machine is stopped nothing more is done.
#[derive(Clone, Copy, Debug, PartialEq, Eq, Structural)]
pub enum LoopAction {
    ContinueMonitoring,
    TearDown,
    RemainStopped,
}

/// Why the loop stopped: the user asked to quit, or an input/output
/// failure was propagated.
#[derive(Clone, Copy, Debug, PartialEq, Eq, Structural)]
pub enum StopCause {
    QuitRequested,
    IoFailure,
}

/// The quit keys: the character `q` and the escape key. Upper-case `Q`
/// is not a quit key.
pub open spec fn spec_is_quit_key(k: Key) -> bool {
    k == Key::Char('q') || k == Key::Esc
}

/// Whether a keypress is a quit key.
pub fn is_quit_key(k: &Key) -> (r: bool)
    ensures
        r == spec_is_quit_key(*k),
{
    match k {
        Key::Char(c) => *c == 'q',
        Key::Esc => true,
        Key::OtherKey => false,
    }
}

/// Why an event stops a running loop, if it does: quit keys stop it by
/// request, failures stop it as errors, and anything else (a timed-out
/// poll or another key) leaves it running.
pub open spec fn spec_stop_cause(e: LoopEvent) -> Option<StopCause> {
    match e {
        LoopEvent::MetricsFailed => Some(StopCause::IoFailure),
        LoopEvent::RenderFailed => Some(StopCause::IoFailure),
        LoopEvent::InputFailed => Some(StopCause::IoFailure),
        LoopEvent::KeyPressed(k) => if spec_is_quit_key(k) {
            Some(StopCause::QuitRequested)
        } else {
            None
        },
        LoopEvent::NoInput => None,
    }
}

/// Classifies an event: `None` keeps the loop running, `Some` stops it
/// with the given cause.
pub fn stop_cause(e: &LoopEvent) -> (r: Option<StopCause>)
    ensures
        r == spec_stop_cause(*e),
{
    match e {
        LoopEvent::MetricsFailed => Some(StopCause::IoFailure),
        LoopEvent::RenderFailed => Some(StopCause::IoFailure),
        LoopEvent::InputFailed => Some(StopCause::IoFailure),
        LoopEvent::KeyPressed(k) => if is_quit_key(k) {
            Some(StopCause::QuitRequested)
        } else {
            None
        },
        LoopEvent::NoInput => None,
    }
}

/// The state after observing an event: a running loop stops on a quit
/// key or a failure and keeps running otherwise; a stopped loop stays
/// stopped.
pub open spec fn spec_next_state(s: LoopState, e: LoopEvent) -> LoopState {
    match s {
        LoopState::Running => if spec_stop_cause(e) is Some {
            LoopState::Stopped
        } else {
            LoopState::Running
        },
        LoopState::Stopped => LoopState::Stopped,
    }
}

/// The action a step asks for: tear down exactly on the step that stops
/// a running loop, continue while it runs, do nothing once stopped.
pub open spec fn spec_step_action(s: LoopState, e: LoopEvent) -> LoopAction {
    match s {
        LoopState::Running => if spec_stop_cause(e) is Some {
            LoopAction::TearDown
        } else {
            LoopAction::ContinueMonitoring
        },
        LoopState::Stopped => LoopAction::RemainStopped,
    }
}

/// One step of the monitor loop: the next state and what to do.
///
/// The metrics source is queried again only when the action is
/// `ContinueMonitoring`; after a quit key or a failure no further
/// query is made.
pub fn step(state: LoopState, event: &LoopEvent) -> (r: (LoopState, LoopAction))
    ensures
        r.0 == spec_next_state(state, *event),
        r.1 == spec_step_action(state, *event),
        r.1 == LoopAction::TearDown <==> (state == LoopState::Running && r.0
            == LoopState::Stopped),
        r.1 == LoopAction::ContinueMonitoring <==> (state == LoopState::Running && r.0
            == LoopState::Running),
{
    match state {
        LoopState::Running => match stop_cause(event) {
            Some(_) => (LoopState::Stopped, LoopAction::TearDown),
            None => (LoopState::Running, LoopAction::ContinueMonitoring),
        },
        LoopState::Stopped => (LoopState::Stopped, LoopAction::RemainStopped),
    }
}

/// The state the machine is in after a whole run of events, starting
/// from `Running`.
pub open spec fn run_state(events: Seq<LoopEvent>) -> LoopState
    decreases events.len(),
{
    if events.len() == 0 {
        LoopState::Running
    } else {
        spec_next_state(run_state(events.drop_last()), events.last())
    }
}

/// How many steps of a whole run asked for teardown.
pub open spec fn teardown_count(events: Seq<LoopEvent>) -> nat
    decreases events.len(),
{
    if events.len() == 0 {
        0
    } else {
        teardown_count(events.drop_last()) + if spec_step_action(
            run_state(events.drop_last()),
            events.last(),
        ) == LoopAction::TearDown {
            1nat
        } else {
            0nat
        }
    }
}

/// Once a run has stopped the loop, no later event makes it continue:
/// whatever arrives next, the step neither monitors on (so no further
/// metrics query is made) nor tears down again.
pub proof fn lemma_stopped_stays_stopped(events: Seq<LoopEvent>, e: LoopEvent)
    requires
        run_state(events) == LoopState::Stopped,
    ensures
        spec_next_state(run_state(events), e) == LoopState::Stopped,
        spec_step_action(run_state(events), e) == LoopAction::RemainStopped,
{
}

/// Teardown symmetry: over any run of events, the terminal is torn
/// down exactly once if the loop stopped (by quit key or by failure),
/// and never while it still runs.
pub proof fn lemma_teardown_exactly_once(events: Seq<LoopEvent>)
    ensures
        teardown_count(events) == if run_state(events) == LoopState::Stopped {
            1nat
        } else {
            0nat
        },
    decreases events.len(),
{
    if events.len() == 0 {
    } else {
        lemma_teardown_exactly_once(events.drop_last());
    }
}

} // verus!
