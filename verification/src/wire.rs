//! What a run of the engine puts on the serial channel.
//!
//! A command is on the wire as its opcode followed by its payload.  A run
//! that reaches the end of its program has written every command of the
//! program, whole and in order, and nothing else.

use vstd::prelude::*;
use crate::bus::{ActionView, Event};
use crate::command::Command;
use crate::engine::{commands_of, Machine, Op, PanelState, Progress, Stage};
use crate::packing::packed;
use crate::sequence::{init_commands, init_program, refresh_commands, refresh_program};
use crate::sync::WaitPhase;
use crate::transport::{chunk, chunk_end, payload_len, SendPhase, MAX_CHUNK};

verus! {

/// The bytes of a payload; none for a command without payload.
pub open spec fn payload_bytes(payload: Option<Seq<u8>>) -> Seq<u8> {
    match payload {
        Some(bytes) => bytes,
        None => Seq::empty(),
    }
}

/// A command as it goes over the wire when the framebuffer holds `pixels`:
/// the opcode, then the payload.
pub open spec fn wire_of_command(command: Command, pixels: Seq<u8>) -> Seq<u8> {
    seq![command.spec_opcode()] + payload_bytes(command.spec_payload(pixels))
}

/// Commands as they go over the wire one after the other.
pub open spec fn wire_of(commands: Seq<Command>, pixels: Seq<u8>) -> Seq<u8>
    decreases commands.len(),
{
    if commands.len() == 0 {
        Seq::empty()
    } else {
        wire_of(commands.drop_last(), pixels) + wire_of_command(commands.last(), pixels)
    }
}

/// The bytes that reach the wire when `event` answers `action`: those of a
/// write that went through, and none otherwise.
pub open spec fn bytes_written(action: ActionView, event: Event) -> Seq<u8> {
    match action {
        ActionView::Write(bytes) => if event == Event::Written {
            bytes
        } else {
            Seq::empty()
        },
        _ => Seq::empty(),
    }
}

/// The engine after a series of events, with `pixels` in the framebuffer
/// throughout.
pub open spec fn run(m: Machine, events: Seq<Event>, pixels: Seq<u8>) -> Machine
    decreases events.len(),
{
    if events.len() == 0 {
        m
    } else {
        run(m, events.drop_last(), pixels).advance(events.last(), pixels)
    }
}

/// The bytes that reach the wire while the engine goes through a series of
/// events.
pub open spec fn written(m: Machine, events: Seq<Event>, pixels: Seq<u8>) -> Seq<u8>
    decreases events.len(),
{
    if events.len() == 0 {
        Seq::empty()
    } else {
        written(m, events.drop_last(), pixels) + bytes_written(
            run(m, events.drop_last(), pixels).pending(),
            events.last(),
        )
    }
}

/// The engine is in order, the payload it holds is that of the command
/// being sent, and the count of bytes sent fits the phase.
spec fn coherent(m: Machine, pixels: Seq<u8>) -> bool {
    &&& m.wf()
    &&& 0 <= m.pc < m.program.len() ==> match (m.stage().op, m.progress) {
        (Op::Send(command), Progress::Sending(s)) => {
            &&& m.payload == command.spec_payload(pixels)
            &&& match s.phase {
                SendPhase::Select | SendPhase::CommandMode | SendPhase::Settle | SendPhase::Opcode
                | SendPhase::DataMode => s.sent == 0 && !s.aborting,
                SendPhase::Data => !s.aborting,
                SendPhase::Release | SendPhase::Restore => !s.aborting ==> s.sent == payload_len(
                    m.payload,
                ),
            }
        },
        _ => true,
    }
}

/// The run can no longer reach the end of its program.
spec fn doomed(m: Machine) -> bool {
    ||| m.failure is Some
    ||| {
        &&& m.running()
        &&& m.progress matches Progress::Sending(s)
        &&& s.aborting
    }
}

/// What the stages before the current one have put on the wire.
spec fn wire_before(m: Machine, pixels: Seq<u8>) -> Seq<u8> {
    wire_of(commands_of(m.program.take(m.pc)), pixels)
}

/// What the current stage has put on the wire so far.
spec fn wire_within(m: Machine) -> Seq<u8> {
    if 0 <= m.pc < m.program.len() {
        match (m.stage().op, m.progress) {
            (Op::Send(command), Progress::Sending(s)) => match s.phase {
                SendPhase::Select | SendPhase::CommandMode | SendPhase::Settle
                | SendPhase::Opcode => Seq::empty(),
                _ => seq![command.spec_opcode()] + payload_bytes(m.payload).take(s.sent as int),
            },
            _ => Seq::empty(),
        }
    } else {
        Seq::empty()
    }
}

proof fn lemma_commands_of_take(program: Seq<Stage>, k: int)
    requires
        0 <= k < program.len(),
    ensures
        commands_of(program.take(k + 1)) == match program[k].op {
            Op::Send(command) => commands_of(program.take(k)).push(command),
            _ => commands_of(program.take(k)),
        },
{
    assert(program.take(k + 1).drop_last() =~= program.take(k));
    assert(program.take(k + 1).last() == program[k]);
}

proof fn lemma_wire_of_push(commands: Seq<Command>, command: Command, pixels: Seq<u8>)
    ensures
        wire_of(commands.push(command), pixels) == wire_of(commands, pixels) + wire_of_command(
            command,
            pixels,
        ),
{
    assert(commands.push(command).drop_last() =~= commands);
}

/// Entering the next stage after one that wrote `whole` in all.
proof fn lemma_enter_next(m: Machine, pixels: Seq<u8>)
    requires
        coherent(m, pixels),
        m.running(),
        pixels.len() <= usize::MAX,
    ensures
        coherent(m.enter(m.pc + 1, pixels), pixels),
        !doomed(m.enter(m.pc + 1, pixels)),
        wire_within(m.enter(m.pc + 1, pixels)) == Seq::<u8>::empty(),
        wire_before(m.enter(m.pc + 1, pixels), pixels) == match m.stage().op {
            Op::Send(command) => wire_before(m, pixels) + wire_of_command(command, pixels),
            _ => wire_before(m, pixels),
        },
{
    lemma_commands_of_take(m.program, m.pc);
    match m.stage().op {
        Op::Send(command) => {
            lemma_wire_of_push(commands_of(m.program.take(m.pc)), command, pixels);
        },
        _ => {},
    }
}

/// One event keeps the engine coherent, never revives a doomed run, and
/// adds to the wire exactly what the answered write carried.
proof fn lemma_step(m: Machine, event: Event, pixels: Seq<u8>)
    requires
        coherent(m, pixels),
        pixels.len() <= usize::MAX,
    ensures
        coherent(m.advance(event, pixels), pixels),
        doomed(m) ==> doomed(m.advance(event, pixels)),
        !doomed(m.advance(event, pixels)) ==> wire_before(m.advance(event, pixels), pixels)
            + wire_within(m.advance(event, pixels)) == wire_before(m, pixels) + wire_within(m)
            + bytes_written(m.pending(), event),
{
    let next = m.advance(event, pixels);
    let before = wire_before(m, pixels);
    if m.running() {
        lemma_enter_next(m, pixels);
        match (m.stage().op, m.progress) {
            (Op::Send(command), Progress::Sending(s)) => {
                let bytes = payload_bytes(m.payload);
                let opcode = seq![command.spec_opcode()];
                if !doomed(next) {
                    match (s.phase, event) {
                        (SendPhase::Opcode, Event::Written) => {
                            assert(bytes.take(0) =~= Seq::<u8>::empty());
                            assert(before + Seq::<u8>::empty() + opcode =~= before + (opcode
                                + bytes.take(0)));
                        },
                        (SendPhase::Data, Event::Written) => {
                            let end = chunk_end(bytes.len() as int, s.sent as int);
                            assert(bytes.take(s.sent as int) + chunk(bytes, s.sent as int)
                                =~= bytes.take(end));
                            assert(before + (opcode + bytes.take(s.sent as int)) + chunk(
                                bytes,
                                s.sent as int,
                            ) =~= before + (opcode + bytes.take(end)));
                        },
                        (SendPhase::Restore, Event::Done) => {
                            assert(bytes.take(s.sent as int) =~= bytes);
                            assert(before + wire_of_command(command, pixels) + Seq::<u8>::empty()
                                =~= before + (opcode + bytes.take(s.sent as int))
                                + Seq::<u8>::empty());
                        },
                        _ => {
                            assert(wire_within(next) =~= wire_within(m));
                            assert(wire_before(next, pixels) == before);
                            assert(bytes_written(m.pending(), event) =~= Seq::<u8>::empty());
                            assert(before + wire_within(m) + Seq::<u8>::empty() =~= before
                                + wire_within(m));
                        },
                    }
                }
            },
            _ => {
                assert(bytes_written(m.pending(), event) =~= Seq::<u8>::empty());
                assert(wire_within(m) =~= Seq::<u8>::empty());
                if !doomed(next) {
                    assert(wire_within(next) =~= Seq::<u8>::empty());
                    assert(wire_before(next, pixels) == before);
                    assert(before + Seq::<u8>::empty() + Seq::<u8>::empty() =~= before
                        + Seq::<u8>::empty());
                }
            },
        }
    } else {
        assert(next == m);
        assert(bytes_written(m.pending(), event) =~= Seq::<u8>::empty());
        assert(before + wire_within(m) + Seq::<u8>::empty() =~= before + wire_within(m));
    }
}

/// Throughout a run from the start of a program the engine stays coherent,
/// and as long as the run is not doomed the wire holds what the stages gone
/// through account for.
proof fn lemma_run(program: Seq<Stage>, rest: PanelState, pixels: Seq<u8>, events: Seq<Event>)
    requires
        pixels.len() <= usize::MAX,
    ensures
        ({
            let begin = Machine::start(program, rest, pixels);
            let m = run(begin, events, pixels);
            &&& coherent(m, pixels)
            &&& !doomed(m) ==> written(begin, events, pixels) == wire_before(m, pixels)
                + wire_within(m)
        }),
    decreases events.len(),
{
    let begin = Machine::start(program, rest, pixels);
    if events.len() == 0 {
        assert(program.take(0) =~= Seq::<Stage>::empty());
        assert(wire_before(begin, pixels) + wire_within(begin) =~= Seq::<u8>::empty());
    } else {
        lemma_run(program, rest, pixels, events.drop_last());
        lemma_step(run(begin, events.drop_last(), pixels), events.last(), pixels);
    }
}

/// The wire holds what the machine accounts for; after a failure it may
/// hold no more than what the stages before the failed one wrote.
spec fn accounts_for(m: Machine, wire: Seq<u8>, pixels: Seq<u8>) -> bool {
    ||| wire == wire_before(m, pixels) + wire_within(m)
    ||| doomed(m) && wire == wire_before(m, pixels)
}

/// One event of a run that may be doomed: the machine still accounts for
/// what is on the wire.
proof fn lemma_step_any(m: Machine, wire: Seq<u8>, event: Event, pixels: Seq<u8>)
    requires
        coherent(m, pixels),
        accounts_for(m, wire, pixels),
        pixels.len() <= usize::MAX,
    ensures
        accounts_for(
            m.advance(event, pixels),
            wire + bytes_written(m.pending(), event),
            pixels,
        ),
{
    let next = m.advance(event, pixels);
    lemma_step(m, event, pixels);
    if doomed(next) {
        assert(bytes_written(m.pending(), event) =~= Seq::<u8>::empty());
        assert(wire + Seq::<u8>::empty() =~= wire);
        assert(wire_before(next, pixels) == wire_before(m, pixels));
        if !doomed(m) {
            match (m.stage().op, m.progress) {
                (Op::Send(command), Progress::Sending(s)) => {
                    if s.phase == SendPhase::Opcode {
                        assert(wire_within(m) =~= Seq::<u8>::empty());
                        assert(wire_before(m, pixels) + Seq::<u8>::empty() =~= wire_before(
                            m,
                            pixels,
                        ));
                    } else {
                        assert(wire_within(next) =~= wire_within(m));
                    }
                },
                _ => {
                    assert(wire_within(next) =~= wire_within(m));
                },
            }
        } else {
            assert(wire_within(next) =~= wire_within(m));
        }
    }
}

proof fn lemma_run_any(program: Seq<Stage>, rest: PanelState, pixels: Seq<u8>, events: Seq<Event>)
    requires
        pixels.len() <= usize::MAX,
    ensures
        accounts_for(
            run(Machine::start(program, rest, pixels), events, pixels),
            written(Machine::start(program, rest, pixels), events, pixels),
            pixels,
        ),
    decreases events.len(),
{
    let begin = Machine::start(program, rest, pixels);
    if events.len() == 0 {
        assert(program.take(0) =~= Seq::<Stage>::empty());
        assert(wire_before(begin, pixels) + wire_within(begin) =~= Seq::<u8>::empty());
    } else {
        let earlier = events.drop_last();
        lemma_run(program, rest, pixels, earlier);
        lemma_run_any(program, rest, pixels, earlier);
        lemma_step_any(
            run(begin, earlier, pixels),
            written(begin, earlier, pixels),
            events.last(),
            pixels,
        );
    }
}

/// Commands sent one after the other are on the wire one after the other.
pub proof fn lemma_wire_of_concat(a: Seq<Command>, b: Seq<Command>, pixels: Seq<u8>)
    ensures
        wire_of(a + b, pixels) == wire_of(a, pixels) + wire_of(b, pixels),
    decreases b.len(),
{
    if b.len() == 0 {
        assert(a + b =~= a);
        assert(wire_of(a, pixels) + wire_of(b, pixels) =~= wire_of(a, pixels));
    } else {
        lemma_wire_of_concat(a, b.drop_last(), pixels);
        assert((a + b).drop_last() =~= a + b.drop_last());
        assert(wire_of(a, pixels) + wire_of(b.drop_last(), pixels) + wire_of_command(
            b.last(),
            pixels,
        ) =~= wire_of(a, pixels) + (wire_of(b.drop_last(), pixels) + wire_of_command(
            b.last(),
            pixels,
        )));
    }
}

/// What the machine accounts for opens the wire of the whole program.
proof fn lemma_accounted_is_prefix(m: Machine, wire: Seq<u8>, pixels: Seq<u8>)
    requires
        coherent(m, pixels),
        accounts_for(m, wire, pixels),
    ensures
        wire.is_prefix_of(wire_of(commands_of(m.program), pixels)),
{
    let done = m.program.take(m.pc);
    let left = m.program.skip(m.pc);
    let whole = wire_of(commands_of(m.program), pixels);
    let before = wire_before(m, pixels);
    assert(done + left =~= m.program);
    crate::sequence::lemma_commands_of_concat(done, left);
    lemma_wire_of_concat(commands_of(done), commands_of(left), pixels);
    let after = wire_of(commands_of(left), pixels);
    assert(whole == before + after);
    assert(before =~= whole.subrange(0, before.len() as int));
    if wire != before {
        let within = wire_within(m);
        assert(0 <= m.pc < m.program.len());
        match (m.stage().op, m.progress) {
            (Op::Send(command), Progress::Sending(s)) => {
                let first = seq![m.stage()];
                let later = left.skip(1);
                assert(first + later =~= left);
                crate::sequence::lemma_commands_of_concat(first, later);
                assert(commands_of(first) =~= seq![command]) by {
                    reveal_with_fuel(commands_of, 2);
                }
                lemma_wire_of_concat(seq![command], commands_of(later), pixels);
                assert(wire_of(seq![command], pixels) =~= wire_of_command(command, pixels)) by {
                    reveal_with_fuel(wire_of, 2);
                }
                let tail = wire_of(commands_of(later), pixels);
                assert(after == wire_of_command(command, pixels) + tail);
                assert(within.is_prefix_of(wire_of_command(command, pixels)));
                assert(wire =~= whole.subrange(0, wire.len() as int));
            },
            _ => {
                assert(within =~= Seq::<u8>::empty());
                assert(before + within =~= before);
            },
        }
    }
}

/// A run never changes its program.
pub proof fn law_run_keeps_the_program(m: Machine, events: Seq<Event>, pixels: Seq<u8>)
    ensures
        run(m, events, pixels).program == m.program,
        run(m, events, pixels).rest == m.rest,
    decreases events.len(),
{
    if events.len() > 0 {
        law_run_keeps_the_program(m, events.drop_last(), pixels);
    }
}

/// A run that reaches the end of its program has put on the wire every
/// command of the program, each as its opcode followed by its whole payload,
/// in the order of the program, and not a byte besides.
pub proof fn law_finished_run_wrote_every_command(
    program: Seq<Stage>,
    rest: PanelState,
    pixels: Seq<u8>,
    events: Seq<Event>,
)
    requires
        pixels.len() <= usize::MAX,
        run(Machine::start(program, rest, pixels), events, pixels).finished(),
    ensures
        written(Machine::start(program, rest, pixels), events, pixels) == wire_of(
            commands_of(program),
            pixels,
        ),
        run(Machine::start(program, rest, pixels), events, pixels).state() == rest,
{
    let begin = Machine::start(program, rest, pixels);
    let m = run(begin, events, pixels);
    lemma_run(program, rest, pixels, events);
    law_run_keeps_the_program(begin, events, pixels);
    assert(m.program.take(m.pc) =~= program);
    assert(wire_before(m, pixels) + wire_within(m) =~= wire_before(m, pixels));
}

/// Whatever happens during a run, what is on the wire opens the wire of the
/// whole program: commands are never reordered, and a byte is only ever
/// missing at the end, after a failure or before the run is over.
pub proof fn law_wire_is_never_reordered(
    program: Seq<Stage>,
    rest: PanelState,
    pixels: Seq<u8>,
    events: Seq<Event>,
)
    requires
        pixels.len() <= usize::MAX,
    ensures
        written(Machine::start(program, rest, pixels), events, pixels).is_prefix_of(
            wire_of(commands_of(program), pixels),
        ),
{
    let begin = Machine::start(program, rest, pixels);
    let m = run(begin, events, pixels);
    lemma_run(program, rest, pixels, events);
    lemma_run_any(program, rest, pixels, events);
    law_run_keeps_the_program(begin, events, pixels);
    lemma_accounted_is_prefix(m, written(begin, events, pixels), pixels);
}

/// The initialisation on the wire, byte for byte: thirteen opcodes, each
/// followed by its payload.
pub open spec fn init_wire() -> Seq<u8> {
    seq![
        0xAAu8, 0x49u8, 0x55u8, 0x20u8, 0x08u8, 0x09u8, 0x18u8,
        0x01u8, 0x3Fu8,
        0x00u8, 0x5Fu8, 0x69u8,
        0x05u8, 0x40u8, 0x1Fu8, 0x1Fu8, 0x2Cu8,
        0x08u8, 0x6Fu8, 0x1Fu8, 0x1Fu8, 0x22u8,
        0x06u8, 0x6Fu8, 0x1Fu8, 0x17u8, 0x17u8,
        0x03u8, 0x00u8, 0x54u8, 0x00u8, 0x44u8,
        0x60u8, 0x02u8, 0x00u8,
        0x30u8, 0x08u8,
        0x50u8, 0x3Fu8,
        0x61u8, 0x03u8, 0x20u8, 0x01u8, 0xE0u8,
        0xE3u8, 0x2Fu8,
        0x82u8, 0x01u8,
    ]
}

/// What a refresh puts on the wire after the initialisation: the display
/// data with the packed framebuffer, power on, the booster setting, the
/// refresh and power off.
pub open spec fn refresh_wire(pixels: Seq<u8>) -> Seq<u8> {
    seq![0x10u8] + packed(pixels) + seq![
        0x04u8,
        0x06u8, 0x6Fu8, 0x1Fu8, 0x17u8, 0x49u8,
        0x12u8, 0x00u8,
        0x02u8, 0x00u8,
    ]
}

proof fn lemma_init_wire(pixels: Seq<u8>)
    ensures
        wire_of(init_commands(), pixels) == init_wire(),
{
    let c = init_commands();
    let c12 = c.drop_last();
    let c11 = c12.drop_last();
    let c10 = c11.drop_last();
    let c9 = c10.drop_last();
    let c8 = c9.drop_last();
    let c7 = c8.drop_last();
    let c6 = c7.drop_last();
    let c5 = c6.drop_last();
    let c4 = c5.drop_last();
    let c3 = c4.drop_last();
    let c2 = c3.drop_last();
    let c1 = c2.drop_last();
    let c0 = c1.drop_last();
    assert(wire_of(c0, pixels) =~= Seq::<u8>::empty());
    assert(wire_of(c1, pixels) =~= wire_of(c0, pixels) + wire_of_command(Command::Preamble, pixels));
    assert(wire_of(c2, pixels) =~= wire_of(c1, pixels) + wire_of_command(Command::Pwr, pixels));
    assert(wire_of(c3, pixels) =~= wire_of(c2, pixels) + wire_of_command(Command::Psr, pixels));
    assert(wire_of(c4, pixels) =~= wire_of(c3, pixels) + wire_of_command(Command::Btst1, pixels));
    assert(wire_of(c5, pixels) =~= wire_of(c4, pixels) + wire_of_command(Command::Btst3, pixels));
    assert(wire_of(c6, pixels) =~= wire_of(c5, pixels) + wire_of_command(Command::Btst2, pixels));
    assert(wire_of(c7, pixels) =~= wire_of(c6, pixels) + wire_of_command(Command::Pofs, pixels));
    assert(wire_of(c8, pixels) =~= wire_of(c7, pixels) + wire_of_command(Command::Tcon, pixels));
    assert(wire_of(c9, pixels) =~= wire_of(c8, pixels) + wire_of_command(Command::Pll, pixels));
    assert(wire_of(c10, pixels) =~= wire_of(c9, pixels) + wire_of_command(Command::Cdi, pixels));
    assert(wire_of(c11, pixels) =~= wire_of(c10, pixels) + wire_of_command(Command::Tres, pixels));
    assert(wire_of(c12, pixels) =~= wire_of(c11, pixels) + wire_of_command(Command::Pws, pixels));
    assert(wire_of(c, pixels) =~= wire_of(c12, pixels) + wire_of_command(Command::Vdcs, pixels));
    assert(wire_of(c, pixels) =~= init_wire());
}

proof fn lemma_refresh_wire(pixels: Seq<u8>)
    ensures
        wire_of(refresh_commands(), pixels) == refresh_wire(pixels),
{
    let c = refresh_commands();
    let c4 = c.drop_last();
    let c3 = c4.drop_last();
    let c2 = c3.drop_last();
    let c1 = c2.drop_last();
    let c0 = c1.drop_last();
    assert(wire_of(c0, pixels) =~= Seq::<u8>::empty());
    assert(wire_of(c1, pixels) =~= wire_of(c0, pixels) + wire_of_command(Command::Dtm1, pixels));
    assert(wire_of(c2, pixels) =~= wire_of(c1, pixels) + wire_of_command(Command::Pon, pixels));
    assert(wire_of(c3, pixels) =~= wire_of(c2, pixels) + wire_of_command(
        Command::Btst2PowerOn,
        pixels,
    ));
    assert(wire_of(c4, pixels) =~= wire_of(c3, pixels) + wire_of_command(Command::Drf, pixels));
    assert(wire_of(c, pixels) =~= wire_of(c4, pixels) + wire_of_command(Command::Pof, pixels));
    assert(wire_of(c, pixels) =~= refresh_wire(pixels));
}

/// An initialisation that runs to its end has put exactly the bytes of
/// [`init_wire`] on the wire and leaves the panel initialised.
pub proof fn law_finished_initialisation_is_bit_exact(pixels: Seq<u8>, events: Seq<Event>)
    requires
        pixels.len() <= usize::MAX,
        run(
            Machine::start(init_program(), PanelState::Initialized, pixels),
            events,
            pixels,
        ).finished(),
    ensures
        written(Machine::start(init_program(), PanelState::Initialized, pixels), events, pixels)
            == init_wire(),
        run(
            Machine::start(init_program(), PanelState::Initialized, pixels),
            events,
            pixels,
        ).state() == PanelState::Initialized,
{
    crate::sequence::law_programs_send_the_vendor_sequence();
    law_finished_run_wrote_every_command(init_program(), PanelState::Initialized, pixels, events);
    lemma_init_wire(pixels);
}

/// A refresh that runs to its end has put on the wire the bytes of the
/// initialisation followed by those of [`refresh_wire`], with the
/// framebuffer packed two pixels to the byte, and leaves the panel idle.
pub proof fn law_finished_refresh_is_bit_exact(pixels: Seq<u8>, events: Seq<Event>)
    requires
        pixels.len() <= usize::MAX,
        run(Machine::start(refresh_program(), PanelState::Idle, pixels), events, pixels).finished(),
    ensures
        written(Machine::start(refresh_program(), PanelState::Idle, pixels), events, pixels)
            == init_wire() + refresh_wire(pixels),
        run(Machine::start(refresh_program(), PanelState::Idle, pixels), events, pixels).state()
            == PanelState::Idle,
{
    crate::sequence::law_programs_send_the_vendor_sequence();
    law_finished_run_wrote_every_command(refresh_program(), PanelState::Idle, pixels, events);
    lemma_wire_of_concat(init_commands(), refresh_commands(), pixels);
    lemma_init_wire(pixels);
    lemma_refresh_wire(pixels);
}

/// The answer to `action` when nothing goes wrong: lines are driven,
/// sleeps end, writes go through, and the panel reads ready.
pub open spec fn smooth_answer(action: ActionView) -> Event {
    match action {
        ActionView::ReadBusy => Event::Sensed(true),
        ActionView::ReadClock => Event::Clock(0),
        ActionView::Write(_) => Event::Written,
        _ => Event::Done,
    }
}

/// The first `n` events of the run from `m` in which nothing goes wrong.
pub open spec fn smooth_events(m: Machine, n: nat, pixels: Seq<u8>) -> Seq<Event>
    decreases n,
{
    if n == 0 {
        Seq::empty()
    } else {
        let earlier = smooth_events(m, (n - 1) as nat, pixels);
        earlier.push(smooth_answer(run(m, earlier, pixels).pending()))
    }
}

/// Number of chunks in which `len` bytes go out.
pub open spec fn chunks_in(len: int) -> int {
    (len + MAX_CHUNK - 1) / (MAX_CHUNK as int)
}

/// Number of actions that a stage takes when nothing goes wrong: one for a
/// line or a sleep, two for a wait, and for a command six and, where it has
/// a payload, one more and one for each chunk.
pub open spec fn actions_of(op: Op, pixels: Seq<u8>) -> int {
    match op {
        Op::Drive(_, _) => 1,
        Op::Sleep(_) => 1,
        Op::WaitReady(_) => 2,
        Op::Send(command) => match command.spec_payload(pixels) {
            Some(bytes) => 7 + chunks_in(bytes.len() as int),
            None => 6,
        },
    }
}

/// Number of actions that the stages from `from` on take when nothing goes
/// wrong.
pub open spec fn actions_from(program: Seq<Stage>, from: int, pixels: Seq<u8>) -> int
    decreases program.len() - from,
{
    if 0 <= from < program.len() {
        actions_of(program[from].op, pixels) + actions_from(program, from + 1, pixels)
    } else {
        0
    }
}

/// Nothing has gone wrong so far: no failure, no failed write, and no wait
/// that had to poll.
spec fn smooth(m: Machine) -> bool {
    &&& m.failure is None
    &&& m.running() ==> match m.progress {
        Progress::Single => true,
        Progress::Waiting(w) => w.phase == WaitPhase::Probe || w.phase == WaitPhase::Hold,
        Progress::Sending(s) => !s.aborting,
    }
}

/// Number of actions left in the current stage when nothing goes wrong.
spec fn actions_left_within(m: Machine) -> int {
    match (m.stage().op, m.progress) {
        (Op::WaitReady(_), Progress::Waiting(w)) => if w.phase == WaitPhase::Probe {
            2
        } else {
            1
        },
        (Op::Send(_), Progress::Sending(s)) => {
            let data = match m.payload {
                Some(bytes) => 1 + chunks_in(bytes.len() as int),
                None => 0,
            };
            match s.phase {
                SendPhase::Select => 6 + data,
                SendPhase::CommandMode => 5 + data,
                SendPhase::Settle => 4 + data,
                SendPhase::Opcode => 3 + data,
                SendPhase::DataMode => 2 + data,
                SendPhase::Data => 2 + chunks_in(payload_len(m.payload) - s.sent),
                SendPhase::Release => 2,
                SendPhase::Restore => 1,
            }
        },
        _ => 1,
    }
}

/// Number of actions left in the program when nothing goes wrong.
spec fn actions_left(m: Machine, pixels: Seq<u8>) -> int {
    if m.running() {
        actions_left_within(m) + actions_from(m.program, m.pc + 1, pixels)
    } else {
        0
    }
}

proof fn lemma_actions_from_is_not_negative(program: Seq<Stage>, from: int, pixels: Seq<u8>)
    ensures
        actions_from(program, from, pixels) >= 0,
        0 <= from < program.len() ==> actions_from(program, from, pixels) >= 1,
    decreases program.len() - from,
{
    if 0 <= from < program.len() {
        lemma_actions_from_is_not_negative(program, from + 1, pixels);
    }
}

/// An answer with which nothing goes wrong takes the program one action
/// closer to its end.
proof fn lemma_smooth_step(m: Machine, pixels: Seq<u8>)
    requires
        coherent(m, pixels),
        smooth(m),
        m.running(),
        pixels.len() <= usize::MAX,
    ensures
        smooth(m.advance(smooth_answer(m.pending()), pixels)),
        actions_left(m.advance(smooth_answer(m.pending()), pixels), pixels) == actions_left(
            m,
            pixels,
        ) - 1,
{
    let next = m.advance(smooth_answer(m.pending()), pixels);
    lemma_enter_next(m, pixels);
    lemma_actions_from_is_not_negative(m.program, m.pc + 1, pixels);
    if next.pc == m.pc + 1 && next.running() {
        assert(actions_left_within(next) == actions_of(next.stage().op, pixels));
    }
}

/// After `n` events of the run in which nothing goes wrong, `n` fewer
/// actions are left.
proof fn lemma_smooth_run(program: Seq<Stage>, rest: PanelState, pixels: Seq<u8>, n: nat)
    requires
        pixels.len() <= usize::MAX,
        n <= actions_from(program, 0, pixels),
    ensures
        ({
            let begin = Machine::start(program, rest, pixels);
            let m = run(begin, smooth_events(begin, n, pixels), pixels);
            &&& smooth_events(begin, n, pixels).len() == n
            &&& coherent(m, pixels)
            &&& smooth(m)
            &&& actions_left(m, pixels) == actions_from(program, 0, pixels) - n
        }),
    decreases n,
{
    let begin = Machine::start(program, rest, pixels);
    if n == 0 {
        lemma_run(program, rest, pixels, Seq::empty());
        if begin.running() {
            assert(actions_left_within(begin) == actions_of(begin.stage().op, pixels));
        }
    } else {
        let earlier = smooth_events(begin, (n - 1) as nat, pixels);
        let before = run(begin, earlier, pixels);
        let answer = smooth_answer(before.pending());
        lemma_smooth_run(program, rest, pixels, (n - 1) as nat);
        assert(earlier.push(answer).drop_last() =~= earlier);
        assert(run(begin, earlier.push(answer), pixels) == before.advance(answer, pixels));
        lemma_step(before, answer, pixels);
        lemma_smooth_step(before, pixels);
    }
}

/// When nothing goes wrong, the program runs to its end: after as many
/// events as [`actions_from`] counts the engine rests, and every command of
/// the program is on the wire.
pub proof fn law_smooth_run_finishes(program: Seq<Stage>, rest: PanelState, pixels: Seq<u8>)
    requires
        pixels.len() <= usize::MAX,
    ensures
        ({
            let begin = Machine::start(program, rest, pixels);
            let actions = actions_from(program, 0, pixels);
            let events = smooth_events(begin, actions as nat, pixels);
            &&& actions >= 0
            &&& events.len() == actions
            &&& run(begin, events, pixels).finished()
            &&& run(begin, events, pixels).state() == rest
            &&& written(begin, events, pixels) == wire_of(commands_of(program), pixels)
        }),
{
    let begin = Machine::start(program, rest, pixels);
    lemma_actions_from_is_not_negative(program, 0, pixels);
    let actions = actions_from(program, 0, pixels) as nat;
    lemma_smooth_run(program, rest, pixels, actions);
    let events = smooth_events(begin, actions, pixels);
    let m = run(begin, events, pixels);
    lemma_actions_from_is_not_negative(m.program, m.pc + 1, pixels);
    assert(!m.running());
    law_finished_run_wrote_every_command(program, rest, pixels, events);
}

} // verus!
