//! The vocabulary shared by the driver and whoever owns the hardware.
//!
//! The driver asks for one [`Action`] at a time.  The owner of the lines and
//! of the serial channel performs it and reports back with the [`Event`] that
//! answers it.

use vstd::prelude::*;
use crate::error::InkyError;

verus! {

/// An output line of the control bus.
#[derive(Clone, Copy, Debug, PartialEq, Eq, Structural)]
pub enum Line {
    /// Resets the panel controller while low.
    Reset,
    /// Low announces an opcode on the serial channel, high announces data.
    DataCommand,
    /// Low while the panel is being addressed.
    ChipSelect,
}

/// The level of a line.
#[derive(Clone, Copy, Debug, PartialEq, Eq, Structural)]
pub enum Level {
    Low,
    High,
}

/// What the driver wants done next.
#[derive(Debug, PartialEq, Eq)]
pub enum Action {
    /// Drive the output line to the level.
    Drive(Line, Level),
    /// Suspend for so many milliseconds.
    Sleep(u64),
    /// Sample the busy line.
    ReadBusy,
    /// Read the monotonic clock.
    ReadClock,
    /// Write the bytes to the serial channel in a single transfer.
    Write(Vec<u8>),
    /// The sequence has run to its end; nothing is left to do.
    Complete,
    /// The sequence was given up for the reason stated.
    Fail(InkyError),
}

/// An [`Action`] as specifications see it.
pub ghost enum ActionView {
    Drive(Line, Level),
    Sleep(u64),
    ReadBusy,
    ReadClock,
    Write(Seq<u8>),
    Complete,
    Fail(InkyError),
}

impl View for Action {
    type V = ActionView;

    open spec fn view(&self) -> ActionView {
        match self {
            Action::Drive(line, level) => ActionView::Drive(*line, *level),
            Action::Sleep(ms) => ActionView::Sleep(*ms),
            Action::ReadBusy => ActionView::ReadBusy,
            Action::ReadClock => ActionView::ReadClock,
            Action::Write(bytes) => ActionView::Write(bytes@),
            Action::Complete => ActionView::Complete,
            Action::Fail(e) => ActionView::Fail(*e),
        }
    }
}

/// What came of the action last asked for.
#[derive(Clone, Copy, Debug, PartialEq, Eq, Structural)]
pub enum Event {
    /// The line was driven, or the sleep is over.
    Done,
    /// The busy line was sampled; `true` means the panel signals readiness.
    Sensed(bool),
    /// The clock was read; the value counts nanoseconds from an arbitrary
    /// fixed origin.
    Clock(u64),
    /// The bytes were written.
    Written,
    /// The write failed.
    WriteFailed,
}

/// Whether `event` is an answer to `action`.
pub open spec fn answers(action: ActionView, event: Event) -> bool {
    match action {
        ActionView::Drive(_, _) => event == Event::Done,
        ActionView::Sleep(_) => event == Event::Done,
        ActionView::ReadBusy => event is Sensed,
        ActionView::ReadClock => event is Clock,
        ActionView::Write(_) => event == Event::Written || event == Event::WriteFailed,
        ActionView::Complete => false,
        ActionView::Fail(_) => false,
    }
}

} // verus!
