//! Framing of one command on the bus.
//!
//! A command is sent by asserting chip-select, putting the select line in
//! command mode, letting the lines settle and writing the opcode byte.  A
//! payload, where there is one, follows in data mode, cut into chunks of at
//! most [`MAX_CHUNK`] bytes that are written strictly in order.  Whatever
//! happens, chip-select is deasserted and the select line returned to command
//! mode before the command is over.  A write that fails ends the command
//! early: what is left of the payload is not written, the bus is released as
//! always, and the command is reported as failed.

use vstd::prelude::*;
use vstd::slice::{slice_subrange, slice_to_vec};
use crate::bus::{Action, ActionView, Event, Level, Line};

verus! {

/// The most bytes the serial channel takes in a single transfer.
pub const MAX_CHUNK: usize = 4096;

/// Time the lines are left to settle before the opcode is written, in
/// milliseconds.
pub const SETTLE_MS: u64 = 300;

/// Where the sending of a command stands.  Each phase names the action whose
/// answer is awaited.
#[derive(Clone, Copy, Debug, PartialEq, Eq, Structural)]
pub enum SendPhase {
    /// Chip-select is driven low.
    Select,
    /// The select line is driven low, for command mode.
    CommandMode,
    /// The settle delay.
    Settle,
    /// The opcode byte is written.
    Opcode,
    /// The select line is driven high, for data mode.
    DataMode,
    /// A chunk of the payload is written.
    Data,
    /// Chip-select is driven high.
    Release,
    /// The select line is driven low again.
    Restore,
}

/// The state of a command being sent.
#[derive(Clone, Copy, Debug, PartialEq, Eq, Structural)]
pub struct SendState {
    pub phase: SendPhase,
    /// Bytes of the payload written so far.
    pub sent: usize,
    /// A write has failed; the command ends as a failure once the bus is
    /// released.
    pub aborting: bool,
}

/// How the sending of a command goes on after an event.
#[derive(Clone, Copy, Debug, PartialEq, Eq, Structural)]
pub enum SendStep {
    /// The command is not over and stands in the state given.
    Continue(SendState),
    /// The command was sent whole and the bus is released.
    Sent,
    /// A write failed; the bus is released.
    Failed,
}

/// The state in which the sending of every command begins.
pub open spec fn send_begin() -> SendState {
    SendState { phase: SendPhase::Select, sent: 0, aborting: false }
}

/// Length of a payload; a command without payload has none to write.
pub open spec fn payload_len(payload: Option<Seq<u8>>) -> int {
    match payload {
        Some(bytes) => bytes.len() as int,
        None => 0,
    }
}

/// Where the chunk that starts at `sent` ends in a payload of `len` bytes.
pub open spec fn chunk_end(len: int, sent: int) -> int {
    if len - sent > MAX_CHUNK {
        sent + MAX_CHUNK
    } else {
        len
    }
}

/// The chunk of `payload` that is written once `sent` bytes have gone out.
pub open spec fn chunk(payload: Seq<u8>, sent: int) -> Seq<u8> {
    payload.subrange(sent, chunk_end(payload.len() as int, sent))
}

/// The state of a command fits its payload: the payload fits in memory, no
/// more was sent than there is, and a chunk is only ever awaited while bytes
/// are left.
pub open spec fn send_wf(payload: Option<Seq<u8>>, s: SendState) -> bool {
    &&& payload_len(payload) <= usize::MAX
    &&& 0 <= s.sent <= payload_len(payload)
    &&& s.phase == SendPhase::DataMode ==> payload is Some
    &&& s.phase == SendPhase::Data ==> payload is Some && s.sent < payload_len(payload)
}

/// The action that the sending of a command asks for in state `s`.
pub open spec fn send_action(opcode: u8, payload: Option<Seq<u8>>, s: SendState) -> ActionView {
    match s.phase {
        SendPhase::Select => ActionView::Drive(Line::ChipSelect, Level::Low),
        SendPhase::CommandMode => ActionView::Drive(Line::DataCommand, Level::Low),
        SendPhase::Settle => ActionView::Sleep(SETTLE_MS),
        SendPhase::Opcode => ActionView::Write(seq![opcode]),
        SendPhase::DataMode => ActionView::Drive(Line::DataCommand, Level::High),
        SendPhase::Data => ActionView::Write(chunk(payload->Some_0, s.sent as int)),
        SendPhase::Release => ActionView::Drive(Line::ChipSelect, Level::High),
        SendPhase::Restore => ActionView::Drive(Line::DataCommand, Level::Low),
    }
}

/// The state `s` moved to `phase`.
pub open spec fn send_at(s: SendState, phase: SendPhase) -> SendState {
    SendState { phase, sent: s.sent, aborting: s.aborting }
}

/// The state in which the bus is released after a failed write.
pub open spec fn send_abort(s: SendState) -> SendState {
    SendState { phase: SendPhase::Release, sent: s.sent, aborting: true }
}

/// How the sending of a command goes on from state `s` when `event` arrives.
/// An event that does not answer the action asked for changes nothing.
pub open spec fn send_next(payload: Option<Seq<u8>>, s: SendState, event: Event) -> SendStep {
    match (s.phase, event) {
        (SendPhase::Select, Event::Done) => SendStep::Continue(send_at(s, SendPhase::CommandMode)),
        (SendPhase::CommandMode, Event::Done) => SendStep::Continue(send_at(s, SendPhase::Settle)),
        (SendPhase::Settle, Event::Done) => SendStep::Continue(send_at(s, SendPhase::Opcode)),
        (SendPhase::Opcode, Event::Written) => if payload is Some {
            SendStep::Continue(send_at(s, SendPhase::DataMode))
        } else {
            SendStep::Continue(send_at(s, SendPhase::Release))
        },
        (SendPhase::Opcode, Event::WriteFailed) => SendStep::Continue(send_abort(s)),
        (SendPhase::DataMode, Event::Done) => if s.sent < payload_len(payload) {
            SendStep::Continue(send_at(s, SendPhase::Data))
        } else {
            SendStep::Continue(send_at(s, SendPhase::Release))
        },
        (SendPhase::Data, Event::Written) => {
            let end = chunk_end(payload_len(payload), s.sent as int);
            if end < payload_len(payload) {
                SendStep::Continue(
                    SendState { phase: SendPhase::Data, sent: end as usize, aborting: s.aborting },
                )
            } else {
                SendStep::Continue(
                    SendState {
                        phase: SendPhase::Release,
                        sent: end as usize,
                        aborting: s.aborting,
                    },
                )
            }
        },
        (SendPhase::Data, Event::WriteFailed) => SendStep::Continue(send_abort(s)),
        (SendPhase::Release, Event::Done) => SendStep::Continue(send_at(s, SendPhase::Restore)),
        (SendPhase::Restore, Event::Done) => if s.aborting {
            SendStep::Failed
        } else {
            SendStep::Sent
        },
        _ => SendStep::Continue(s),
    }
}

fn payload_length(payload: &Option<Vec<u8>>) -> (len: usize)
    ensures
        len == payload_len(crate::command::payload_view(*payload)),
{
    match payload {
        Some(bytes) => bytes.len(),
        None => 0,
    }
}

/// The action to ask for in state `s` of sending a command.
pub fn send_request(opcode: u8, payload: &Option<Vec<u8>>, s: SendState) -> (action: Action)
    requires
        send_wf(crate::command::payload_view(*payload), s),
    ensures
        action@ == send_action(opcode, crate::command::payload_view(*payload), s),
{
    match s.phase {
        SendPhase::Select => Action::Drive(Line::ChipSelect, Level::Low),
        SendPhase::CommandMode => Action::Drive(Line::DataCommand, Level::Low),
        SendPhase::Settle => Action::Sleep(SETTLE_MS),
        SendPhase::Opcode => {
            let bytes = vec![opcode];
            assert(bytes@ =~= seq![opcode]);
            Action::Write(bytes)
        },
        SendPhase::DataMode => Action::Drive(Line::DataCommand, Level::High),
        SendPhase::Data => match payload {
            Some(data) => {
                let end = if data.len() - s.sent > MAX_CHUNK {
                    s.sent + MAX_CHUNK
                } else {
                    data.len()
                };
                Action::Write(slice_to_vec(slice_subrange(data.as_slice(), s.sent, end)))
            },
            None => Action::Complete,
        },
        SendPhase::Release => Action::Drive(Line::ChipSelect, Level::High),
        SendPhase::Restore => Action::Drive(Line::DataCommand, Level::Low),
    }
}

/// Takes the sending of a command one event further.
pub fn send_command(payload: &Option<Vec<u8>>, s: SendState, event: Event) -> (step: SendStep)
    requires
        send_wf(crate::command::payload_view(*payload), s),
    ensures
        step == send_next(crate::command::payload_view(*payload), s, event),
        step matches SendStep::Continue(next) ==> send_wf(
            crate::command::payload_view(*payload),
            next,
        ),
{
    let len = payload_length(payload);
    let release = SendState { phase: SendPhase::Release, sent: s.sent, aborting: s.aborting };
    let abort = SendState { phase: SendPhase::Release, sent: s.sent, aborting: true };
    match s.phase {
        SendPhase::Select => match event {
            Event::Done => SendStep::Continue(
                SendState { phase: SendPhase::CommandMode, sent: s.sent, aborting: s.aborting },
            ),
            _ => SendStep::Continue(s),
        },
        SendPhase::CommandMode => match event {
            Event::Done => SendStep::Continue(
                SendState { phase: SendPhase::Settle, sent: s.sent, aborting: s.aborting },
            ),
            _ => SendStep::Continue(s),
        },
        SendPhase::Settle => match event {
            Event::Done => SendStep::Continue(
                SendState { phase: SendPhase::Opcode, sent: s.sent, aborting: s.aborting },
            ),
            _ => SendStep::Continue(s),
        },
        SendPhase::Opcode => match event {
            Event::Written => if payload.is_some() {
                SendStep::Continue(
                    SendState { phase: SendPhase::DataMode, sent: s.sent, aborting: s.aborting },
                )
            } else {
                SendStep::Continue(release)
            },
            Event::WriteFailed => SendStep::Continue(abort),
            _ => SendStep::Continue(s),
        },
        SendPhase::DataMode => match event {
            Event::Done => if s.sent < len {
                SendStep::Continue(
                    SendState { phase: SendPhase::Data, sent: s.sent, aborting: s.aborting },
                )
            } else {
                SendStep::Continue(release)
            },
            _ => SendStep::Continue(s),
        },
        SendPhase::Data => match event {
            Event::Written => {
                let end = if len - s.sent > MAX_CHUNK {
                    s.sent + MAX_CHUNK
                } else {
                    len
                };
                if end < len {
                    SendStep::Continue(
                        SendState { phase: SendPhase::Data, sent: end, aborting: s.aborting },
                    )
                } else {
                    SendStep::Continue(
                        SendState { phase: SendPhase::Release, sent: end, aborting: s.aborting },
                    )
                }
            },
            // The rest of the payload is given up.
            Event::WriteFailed => SendStep::Continue(abort),
            _ => SendStep::Continue(s),
        },
        SendPhase::Release => match event {
            Event::Done => SendStep::Continue(
                SendState { phase: SendPhase::Restore, sent: s.sent, aborting: s.aborting },
            ),
            _ => SendStep::Continue(s),
        },
        SendPhase::Restore => match event {
            Event::Done => if s.aborting {
                SendStep::Failed
            } else {
                SendStep::Sent
            },
            _ => SendStep::Continue(s),
        },
    }
}

/// While bytes are left, the next chunk is not empty, holds at most
/// [`MAX_CHUNK`] bytes, and takes up the payload exactly where the chunks
/// before it ended: chunk after chunk, the payload goes out whole and in
/// order.
pub proof fn law_chunks_follow_the_payload(payload: Seq<u8>, sent: int)
    requires
        0 <= sent < payload.len(),
    ensures
        1 <= chunk(payload, sent).len() <= MAX_CHUNK,
        sent < chunk_end(payload.len() as int, sent) <= payload.len(),
        payload.take(sent) + chunk(payload, sent) == payload.take(
            chunk_end(payload.len() as int, sent),
        ),
        chunk(payload, sent).len() < MAX_CHUNK ==> chunk_end(payload.len() as int, sent)
            == payload.len(),
{
    assert(payload.take(sent) + chunk(payload, sent) =~= payload.take(
        chunk_end(payload.len() as int, sent),
    ));
}

/// However the sending of a command goes, it ends only after chip-select
/// was deasserted and the select line returned to command mode: the last
/// two actions before the end are always these.
pub proof fn law_send_always_releases_the_bus(
    opcode: u8,
    payload: Option<Seq<u8>>,
    s: SendState,
    event: Event,
)
    ensures
        send_next(payload, s, event) == SendStep::Sent || send_next(payload, s, event)
            == SendStep::Failed ==> s.phase == SendPhase::Restore && send_action(opcode, payload, s)
            == ActionView::Drive(Line::DataCommand, Level::Low),
        send_next(payload, s, event) matches SendStep::Continue(next) && next.phase
            == SendPhase::Restore && s.phase != SendPhase::Restore ==> s.phase
            == SendPhase::Release && send_action(opcode, payload, s) == ActionView::Drive(
            Line::ChipSelect,
            Level::High,
        ),
        send_next(payload, s, event) == SendStep::Failed <==> s.phase == SendPhase::Restore
            && event == Event::Done && s.aborting,
{
}

/// A failed write ends the writing: from then on the command only releases
/// the bus, and it ends as a failure.
pub proof fn law_failed_write_abandons_the_payload(
    payload: Option<Seq<u8>>,
    s: SendState,
)
    requires
        s.phase == SendPhase::Opcode || s.phase == SendPhase::Data,
    ensures
        send_next(payload, s, Event::WriteFailed) == SendStep::Continue(send_abort(s)),
        send_next(payload, send_abort(s), Event::Done) == SendStep::Continue(
            send_at(send_abort(s), SendPhase::Restore),
        ),
        send_next(payload, send_at(send_abort(s), SendPhase::Restore), Event::Done)
            == SendStep::Failed,
{
}

} // verus!
