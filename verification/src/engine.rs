//! The protocol engine: runs a program of stages, one action at a time.
//!
//! A program is an ordered list of stages.  Each stage drives a line, sleeps,
//! waits for the panel to become ready, or sends a command.  The engine keeps
//! its place in the program and within the stage, asks for the next action,
//! and moves on when told what came of it.  A timeout or a failed write ends
//! the program for good.

use vstd::prelude::*;
use crate::bus::{Action, ActionView, Event, Level, Line};
use crate::command::{Command, payload_view};
use crate::error::InkyError;
use crate::sync::{
    busy_wait,
    wait_action,
    wait_begin,
    wait_next,
    wait_request,
    WaitPhase,
    WaitState,
    WaitStep,
};
use crate::transport::{
    send_action,
    send_begin,
    send_command,
    send_next,
    send_request,
    send_wf,
    SendPhase,
    SendState,
    SendStep,
};

verus! {

/// Where the panel stands in its life.
///
/// A panel that was never set up, or whose last sequence failed, is
/// `Uninitialized` and needs a new initialisation before anything else.
/// `Resetting` lasts from the reset pulse to the last initialisation
/// command.  `Idle` is where a refresh leaves the panel.
#[derive(Clone, Copy, Debug, PartialEq, Eq, Structural)]
pub enum PanelState {
    Uninitialized,
    Resetting,
    Initialized,
    Transferring,
    Refreshing,
    PoweringOff,
    Idle,
}

/// What a stage of a program does.
#[derive(Clone, Copy, Debug, PartialEq, Eq, Structural)]
pub enum Op {
    /// Drive an output line to a level.
    Drive(Line, Level),
    /// Sleep for so many milliseconds.
    Sleep(u64),
    /// Wait for the panel to become ready, for at most so many milliseconds.
    WaitReady(u64),
    /// Send a command.
    Send(Command),
}

/// A stage of a program, with the state the panel is in while it runs.
#[derive(Clone, Copy, Debug, PartialEq, Eq, Structural)]
pub struct Stage {
    pub op: Op,
    pub state: PanelState,
}

/// How far the current stage has got.
#[derive(Clone, Copy, Debug, PartialEq, Eq, Structural)]
pub enum Progress {
    /// A stage of a single action, which has been asked for.
    Single,
    /// A wait for readiness.
    Waiting(WaitState),
    /// A command being sent.
    Sending(SendState),
}

/// The commands that a program sends, in the order in which it sends them.
pub open spec fn commands_of(program: Seq<Stage>) -> Seq<Command>
    decreases program.len(),
{
    if program.len() == 0 {
        Seq::empty()
    } else {
        match program.last().op {
            Op::Send(command) => commands_of(program.drop_last()).push(command),
            _ => commands_of(program.drop_last()),
        }
    }
}

/// The progress with which a stage begins.
pub open spec fn progress_begin(op: Op) -> Progress {
    match op {
        Op::Drive(_, _) => Progress::Single,
        Op::Sleep(_) => Progress::Single,
        Op::WaitReady(_) => Progress::Waiting(wait_begin()),
        Op::Send(_) => Progress::Sending(send_begin()),
    }
}

/// The engine as specifications see it.
pub ghost struct Machine {
    /// The program being run.
    pub program: Seq<Stage>,
    /// The state in which the panel rests once the program has run.
    pub rest: PanelState,
    /// Index of the current stage; the length of the program once it has run.
    pub pc: int,
    /// How far the current stage has got.
    pub progress: Progress,
    /// Payload of the command being sent.
    pub payload: Option<Seq<u8>>,
    /// Why the program was given up, if it was.
    pub failure: Option<InkyError>,
}

impl Machine {
    /// The program has run to its end.
    pub open spec fn finished(self) -> bool {
        self.failure is None && self.pc >= self.program.len()
    }

    /// The program is under way: neither at its end nor given up.
    pub open spec fn running(self) -> bool {
        self.failure is None && 0 <= self.pc < self.program.len()
    }

    /// The stage being run.
    pub open spec fn stage(self) -> Stage
        recommends
            self.running(),
    {
        self.program[self.pc]
    }

    /// The place in the program is valid and the progress fits the stage.
    pub open spec fn wf(self) -> bool {
        &&& 0 <= self.pc <= self.program.len()
        &&& self.pc < self.program.len() ==> match self.program[self.pc].op {
            Op::Drive(_, _) => self.progress == Progress::Single,
            Op::Sleep(_) => self.progress == Progress::Single,
            Op::WaitReady(_) => self.progress is Waiting,
            Op::Send(_) => self.progress matches Progress::Sending(s) && send_wf(self.payload, s),
        }
    }

    /// The state of the panel.
    pub open spec fn state(self) -> PanelState {
        if self.failure is Some {
            PanelState::Uninitialized
        } else if 0 <= self.pc < self.program.len() {
            self.program[self.pc].state
        } else {
            self.rest
        }
    }

    /// The action the engine is asking for.
    pub open spec fn pending(self) -> ActionView {
        if self.failure is Some {
            ActionView::Fail(self.failure->Some_0)
        } else if !(0 <= self.pc < self.program.len()) {
            ActionView::Complete
        } else {
            match (self.program[self.pc].op, self.progress) {
                (Op::Drive(line, level), _) => ActionView::Drive(line, level),
                (Op::Sleep(ms), _) => ActionView::Sleep(ms),
                (Op::WaitReady(timeout_ms), Progress::Waiting(w)) => wait_action(timeout_ms, w),
                (Op::Send(command), Progress::Sending(s)) => send_action(
                    command.spec_opcode(),
                    self.payload,
                    s,
                ),
                _ => ActionView::Complete,
            }
        }
    }

    /// The engine at the beginning of stage `pc`, with the payload of that
    /// stage's command built from the framebuffer `pixels`.
    pub open spec fn enter(self, pc: int, pixels: Seq<u8>) -> Machine {
        if 0 <= pc < self.program.len() {
            Machine {
                pc,
                progress: progress_begin(self.program[pc].op),
                payload: match self.program[pc].op {
                    Op::Send(command) => command.spec_payload(pixels),
                    _ => None,
                },
                ..self
            }
        } else {
            Machine { pc, progress: Progress::Single, payload: None, ..self }
        }
    }

    /// The engine given up for the reason stated.
    pub open spec fn fail(self, reason: InkyError) -> Machine {
        Machine { failure: Some(reason), ..self }
    }

    /// The engine after `event`, with `pixels` in the framebuffer.  A program
    /// that is over stays as it is, and so does the engine when the event
    /// does not answer the action it asked for.
    pub open spec fn advance(self, event: Event, pixels: Seq<u8>) -> Machine {
        if !self.running() {
            self
        } else {
            match (self.stage().op, self.progress) {
                (Op::Drive(_, _), _) | (Op::Sleep(_), _) => if event == Event::Done {
                    self.enter(self.pc + 1, pixels)
                } else {
                    self
                },
                (Op::WaitReady(timeout_ms), Progress::Waiting(w)) => match wait_next(
                    timeout_ms,
                    w,
                    event,
                ) {
                    WaitStep::Continue(next) => Machine { progress: Progress::Waiting(next), ..self },
                    WaitStep::Ready => self.enter(self.pc + 1, pixels),
                    WaitStep::TimedOut => self.fail(InkyError::SynchronizationTimeout),
                },
                (Op::Send(_), Progress::Sending(s)) => match send_next(self.payload, s, event) {
                    SendStep::Continue(next) => Machine { progress: Progress::Sending(next), ..self },
                    SendStep::Sent => self.enter(self.pc + 1, pixels),
                    SendStep::Failed => self.fail(InkyError::TransportError),
                },
                _ => self,
            }
        }
    }

    /// The engine about to run `program` from its first stage.
    pub open spec fn start(program: Seq<Stage>, rest: PanelState, pixels: Seq<u8>) -> Machine {
        Machine {
            program,
            rest,
            pc: 0,
            progress: Progress::Single,
            payload: None,
            failure: None,
        }.enter(0, pixels)
    }

    /// The engine of a panel that was never set up.
    pub open spec fn idle() -> Machine {
        Machine {
            program: Seq::empty(),
            rest: PanelState::Uninitialized,
            pc: 0,
            progress: Progress::Single,
            payload: None,
            failure: None,
        }
    }
}

/// The protocol engine.
pub struct Sequencer {
    program: Vec<Stage>,
    rest: PanelState,
    pc: usize,
    progress: Progress,
    payload: Option<Vec<u8>>,
    failure: Option<InkyError>,
}

impl View for Sequencer {
    type V = Machine;

    closed spec fn view(&self) -> Machine {
        Machine {
            program: self.program@,
            rest: self.rest,
            pc: self.pc as int,
            progress: self.progress,
            payload: payload_view(self.payload),
            failure: self.failure,
        }
    }
}

impl Sequencer {
    /// An engine with no program, for a panel that was never set up.
    pub fn new() -> (engine: Sequencer)
        ensures
            engine@ == Machine::idle(),
            engine@.wf(),
    {
        Sequencer {
            program: Vec::new(),
            rest: PanelState::Uninitialized,
            pc: 0,
            progress: Progress::Single,
            payload: None,
            failure: None,
        }
    }

    /// An engine about to run `program`, after which the panel rests in
    /// `rest`.
    pub fn start(program: Vec<Stage>, rest: PanelState, pixels: &[u8]) -> (engine: Sequencer)
        ensures
            engine@ == Machine::start(program@, rest, pixels@),
            engine@.wf(),
    {
        let mut engine = Sequencer {
            program,
            rest,
            pc: 0,
            progress: Progress::Single,
            payload: None,
            failure: None,
        };
        engine.enter(0, pixels);
        engine
    }

    /// Moves to the beginning of stage `pc`.
    fn enter(&mut self, pc: usize, pixels: &[u8])
        requires
            pc <= old(self)@.program.len(),
        ensures
            final(self)@ == old(self)@.enter(pc as int, pixels@),
            final(self)@.wf(),
    {
        self.pc = pc;
        if pc < self.program.len() {
            match self.program[pc].op {
                Op::Drive(_, _) => {
                    self.progress = Progress::Single;
                    self.payload = None;
                },
                Op::Sleep(_) => {
                    self.progress = Progress::Single;
                    self.payload = None;
                },
                Op::WaitReady(_) => {
                    self.progress = Progress::Waiting(
                        WaitState { phase: WaitPhase::Probe, started: 0 },
                    );
                    self.payload = None;
                },
                Op::Send(command) => {
                    self.progress = Progress::Sending(
                        SendState { phase: SendPhase::Select, sent: 0, aborting: false },
                    );
                    self.payload = command.payload(pixels);
                },
            }
        } else {
            self.progress = Progress::Single;
            self.payload = None;
        }
    }

    /// The state of the panel.
    pub fn state(&self) -> (state: PanelState)
        ensures
            state == self@.state(),
    {
        if self.failure.is_some() {
            PanelState::Uninitialized
        } else if self.pc < self.program.len() {
            self.program[self.pc].state
        } else {
            self.rest
        }
    }

    /// The action the engine is asking for.
    pub fn request(&self) -> (action: Action)
        requires
            self@.wf(),
        ensures
            action@ == self@.pending(),
    {
        match self.failure {
            Some(reason) => Action::Fail(reason),
            None => {
                if self.pc < self.program.len() {
                    match self.program[self.pc].op {
                        Op::Drive(line, level) => Action::Drive(line, level),
                        Op::Sleep(ms) => Action::Sleep(ms),
                        Op::WaitReady(timeout_ms) => match self.progress {
                            Progress::Waiting(w) => wait_request(timeout_ms, w),
                            _ => Action::Complete,
                        },
                        Op::Send(command) => match self.progress {
                            Progress::Sending(s) => send_request(
                                command.opcode(),
                                &self.payload,
                                s,
                            ),
                            _ => Action::Complete,
                        },
                    }
                } else {
                    Action::Complete
                }
            },
        }
    }

    /// Tells the engine what came of the action it asked for, and returns the
    /// action it asks for next.
    pub fn step(&mut self, event: Event, pixels: &[u8]) -> (action: Action)
        requires
            old(self)@.wf(),
        ensures
            final(self)@ == old(self)@.advance(event, pixels@),
            final(self)@.wf(),
            action@ == final(self)@.pending(),
    {
        if self.failure.is_none() && self.pc < self.program.len() {
            match self.program[self.pc].op {
                Op::Drive(_, _) | Op::Sleep(_) => match event {
                    Event::Done => {
                        self.enter(self.pc + 1, pixels);
                    },
                    _ => {},
                },
                Op::WaitReady(timeout_ms) => match self.progress {
                    Progress::Waiting(w) => match busy_wait(timeout_ms, w, event) {
                        WaitStep::Continue(next) => {
                            self.progress = Progress::Waiting(next);
                        },
                        WaitStep::Ready => {
                            self.enter(self.pc + 1, pixels);
                        },
                        WaitStep::TimedOut => {
                            self.failure = Some(InkyError::SynchronizationTimeout);
                        },
                    },
                    _ => {},
                },
                Op::Send(_) => match self.progress {
                    Progress::Sending(s) => match send_command(&self.payload, s, event) {
                        SendStep::Continue(next) => {
                            self.progress = Progress::Sending(next);
                        },
                        SendStep::Sent => {
                            self.enter(self.pc + 1, pixels);
                        },
                        SendStep::Failed => {
                            self.failure = Some(InkyError::TransportError);
                        },
                    },
                    _ => {},
                },
            }
        }
        self.request()
    }
}

/// An event leaves an engine that is in order in order.
pub proof fn law_advance_keeps_the_engine_in_order(m: Machine, event: Event, pixels: Seq<u8>)
    requires
        m.wf(),
        pixels.len() <= usize::MAX,
    ensures
        m.advance(event, pixels).wf(),
        m.advance(event, pixels).program == m.program,
        m.advance(event, pixels).rest == m.rest,
        m.pc <= m.advance(event, pixels).pc <= m.pc + 1,
{
}

/// An event that does not answer the action asked for changes nothing.
pub proof fn law_stray_events_change_nothing(m: Machine, event: Event, pixels: Seq<u8>)
    requires
        m.wf(),
        !crate::bus::answers(m.pending(), event),
    ensures
        m.advance(event, pixels) == m,
{
}

/// A failure is final: the engine keeps reporting it whatever the events,
/// and the panel counts as uninitialised.  The engine fails only by a
/// timeout while waiting or by a failed write while sending.
pub proof fn law_failure_is_final(m: Machine, event: Event, pixels: Seq<u8>)
    ensures
        m.failure is Some ==> m.advance(event, pixels) == m,
        m.failure is Some ==> m.state() == PanelState::Uninitialized,
        m.failure is Some ==> m.pending() == ActionView::Fail(m.failure->Some_0),
        m.failure is None && m.advance(event, pixels).failure is Some ==> {
            ||| m.stage().op is WaitReady && m.advance(event, pixels).failure == Some(
                InkyError::SynchronizationTimeout,
            )
            ||| m.stage().op is Send && m.advance(event, pixels).failure == Some(
                InkyError::TransportError,
            )
        },
{
}

/// A wait that finds the panel ready at its first sample asks for one
/// sleep, as long as its timeout, and the stage is over when that sleep is.
pub proof fn law_ready_panel_is_waited_for_in_full(m: Machine, timeout_ms: u64, pixels: Seq<u8>)
    requires
        m.wf(),
        m.running(),
        m.stage().op == Op::WaitReady(timeout_ms),
        m.progress == Progress::Waiting(wait_begin()),
    ensures
        m.pending() == ActionView::ReadBusy,
        m.advance(Event::Sensed(true), pixels).pending() == ActionView::Sleep(timeout_ms),
        m.advance(Event::Sensed(true), pixels).advance(Event::Done, pixels) == m.enter(
            m.pc + 1,
            pixels,
        ),
{
}

/// A program that has run leaves the panel in the state in which it rests,
/// and asks for nothing more.
pub proof fn law_finished_engine_rests(m: Machine, event: Event, pixels: Seq<u8>)
    requires
        m.wf(),
        m.finished(),
    ensures
        m.state() == m.rest,
        m.pending() == ActionView::Complete,
        m.advance(event, pixels) == m,
{
}

} // verus!
