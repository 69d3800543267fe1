//! Waiting for the panel to signal readiness on its busy line.
//!
//! A wait begins by sampling the line.  A panel that reads ready at once is
//! taken to give no usable signal, and the whole timeout is slept through
//! before the wait ends.  Otherwise the line is polled every
//! [`POLL_INTERVAL_MS`] until it reads ready, and the wait fails once more
//! time than the timeout has gone by.

use vstd::prelude::*;
use crate::bus::{Action, ActionView, Event};

verus! {

/// Time between two samples of the busy line, in milliseconds.
pub const POLL_INTERVAL_MS: u64 = 100;

/// Nanoseconds in a millisecond.
pub const NANOS_PER_MILLI: u64 = 1_000_000;

/// Where a wait stands.  Each phase names the action whose answer is awaited.
#[derive(Clone, Copy, Debug, PartialEq, Eq, Structural)]
pub enum WaitPhase {
    /// The first sample of the busy line.
    Probe,
    /// The sleep through the whole timeout, after a first sample that read
    /// ready.
    Hold,
    /// The clock reading that marks the start of polling.
    Mark,
    /// A sample of the busy line while polling.
    Poll,
    /// The sleep between two samples.
    Nap,
    /// The clock reading that decides whether time has run out.
    Check,
}

/// The state of a wait: its phase, and the clock reading taken when polling
/// began.
#[derive(Clone, Copy, Debug, PartialEq, Eq, Structural)]
pub struct WaitState {
    pub phase: WaitPhase,
    pub started: u64,
}

/// How a wait goes on after an event.
#[derive(Clone, Copy, Debug, PartialEq, Eq, Structural)]
pub enum WaitStep {
    /// The wait is not over and stands in the state given.
    Continue(WaitState),
    /// The wait is over: the panel is taken to be ready.
    Ready,
    /// The panel did not become ready in time.
    TimedOut,
}

/// The state in which every wait begins.
pub open spec fn wait_begin() -> WaitState {
    WaitState { phase: WaitPhase::Probe, started: 0 }
}

/// More time than `timeout_ms` lies between the clock readings `started`
/// and `now`.
pub open spec fn timeout_exceeded(started: u64, now: u64, timeout_ms: u64) -> bool {
    now - started > timeout_ms * NANOS_PER_MILLI
}

/// The action that a wait with the given timeout asks for in state `w`.
pub open spec fn wait_action(timeout_ms: u64, w: WaitState) -> ActionView {
    match w.phase {
        WaitPhase::Probe => ActionView::ReadBusy,
        WaitPhase::Hold => ActionView::Sleep(timeout_ms),
        WaitPhase::Mark => ActionView::ReadClock,
        WaitPhase::Poll => ActionView::ReadBusy,
        WaitPhase::Nap => ActionView::Sleep(POLL_INTERVAL_MS),
        WaitPhase::Check => ActionView::ReadClock,
    }
}

/// How a wait with the given timeout goes on from state `w` when `event`
/// arrives.  An event that does not answer the action asked for changes
/// nothing.
pub open spec fn wait_next(timeout_ms: u64, w: WaitState, event: Event) -> WaitStep {
    match (w.phase, event) {
        (WaitPhase::Probe, Event::Sensed(true)) => WaitStep::Continue(
            WaitState { phase: WaitPhase::Hold, started: w.started },
        ),
        (WaitPhase::Probe, Event::Sensed(false)) => WaitStep::Continue(
            WaitState { phase: WaitPhase::Mark, started: w.started },
        ),
        (WaitPhase::Hold, Event::Done) => WaitStep::Ready,
        (WaitPhase::Mark, Event::Clock(now)) => WaitStep::Continue(
            WaitState { phase: WaitPhase::Poll, started: now },
        ),
        (WaitPhase::Poll, Event::Sensed(true)) => WaitStep::Ready,
        (WaitPhase::Poll, Event::Sensed(false)) => WaitStep::Continue(
            WaitState { phase: WaitPhase::Nap, started: w.started },
        ),
        (WaitPhase::Nap, Event::Done) => WaitStep::Continue(
            WaitState { phase: WaitPhase::Check, started: w.started },
        ),
        (WaitPhase::Check, Event::Clock(now)) => if timeout_exceeded(w.started, now, timeout_ms) {
            WaitStep::TimedOut
        } else {
            WaitStep::Continue(WaitState { phase: WaitPhase::Poll, started: w.started })
        },
        _ => WaitStep::Continue(w),
    }
}

/// The action to ask for in state `w` of a wait.
pub fn wait_request(timeout_ms: u64, w: WaitState) -> (action: Action)
    ensures
        action@ == wait_action(timeout_ms, w),
{
    match w.phase {
        WaitPhase::Probe => Action::ReadBusy,
        WaitPhase::Hold => Action::Sleep(timeout_ms),
        WaitPhase::Mark => Action::ReadClock,
        WaitPhase::Poll => Action::ReadBusy,
        WaitPhase::Nap => Action::Sleep(POLL_INTERVAL_MS),
        WaitPhase::Check => Action::ReadClock,
    }
}

/// Takes a wait one event further.
pub fn busy_wait(timeout_ms: u64, w: WaitState, event: Event) -> (step: WaitStep)
    ensures
        step == wait_next(timeout_ms, w, event),
{
    match w.phase {
        WaitPhase::Probe => match event {
            // A panel that reads ready at once gives no usable signal:
            // sleep through the whole timeout to be safe.
            Event::Sensed(true) => WaitStep::Continue(
                WaitState { phase: WaitPhase::Hold, started: w.started },
            ),
            Event::Sensed(false) => WaitStep::Continue(
                WaitState { phase: WaitPhase::Mark, started: w.started },
            ),
            _ => WaitStep::Continue(w),
        },
        WaitPhase::Hold => match event {
            Event::Done => WaitStep::Ready,
            _ => WaitStep::Continue(w),
        },
        WaitPhase::Mark => match event {
            Event::Clock(now) => WaitStep::Continue(
                WaitState { phase: WaitPhase::Poll, started: now },
            ),
            _ => WaitStep::Continue(w),
        },
        WaitPhase::Poll => match event {
            Event::Sensed(true) => WaitStep::Ready,
            Event::Sensed(false) => WaitStep::Continue(
                WaitState { phase: WaitPhase::Nap, started: w.started },
            ),
            _ => WaitStep::Continue(w),
        },
        WaitPhase::Nap => match event {
            Event::Done => WaitStep::Continue(
                WaitState { phase: WaitPhase::Check, started: w.started },
            ),
            _ => WaitStep::Continue(w),
        },
        WaitPhase::Check => match event {
            Event::Clock(now) => {
                let limit: u128 = timeout_ms as u128 * 1_000_000;
                if now >= w.started && (now - w.started) as u128 > limit {
                    WaitStep::TimedOut
                } else {
                    WaitStep::Continue(WaitState { phase: WaitPhase::Poll, started: w.started })
                }
            },
            _ => WaitStep::Continue(w),
        },
    }
}

/// A wait that finds the panel ready at its first sample sleeps for exactly
/// the timeout, once, and then ends well: the time it sleeps is the whole
/// timeout, never less.
pub proof fn law_ready_at_entry_waits_full_timeout(timeout_ms: u64, started: u64)
    ensures
        wait_action(timeout_ms, wait_begin()) == ActionView::ReadBusy,
        wait_next(timeout_ms, WaitState { phase: WaitPhase::Probe, started }, Event::Sensed(true))
            == WaitStep::Continue(WaitState { phase: WaitPhase::Hold, started }),
        wait_action(timeout_ms, WaitState { phase: WaitPhase::Hold, started }) == ActionView::Sleep(
            timeout_ms,
        ),
        wait_next(timeout_ms, WaitState { phase: WaitPhase::Hold, started }, Event::Done)
            == WaitStep::Ready,
{
}

/// A wait fails only at a clock reading taken while polling, and only when
/// more than the timeout has gone by since polling began.
pub proof fn law_timeout_only_after_the_budget(timeout_ms: u64, w: WaitState, event: Event)
    ensures
        wait_next(timeout_ms, w, event) == WaitStep::TimedOut <==> (w.phase == WaitPhase::Check
            && event is Clock && timeout_exceeded(w.started, event->Clock_0, timeout_ms)),
{
}

/// An event that does not answer the action asked for leaves a wait where it
/// stands.
pub proof fn law_wait_ignores_stray_events(timeout_ms: u64, w: WaitState, event: Event)
    requires
        !crate::bus::answers(wait_action(timeout_ms, w), event),
    ensures
        wait_next(timeout_ms, w, event) == WaitStep::Continue(w),
{
}

} // verus!
