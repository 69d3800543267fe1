//! The two programs of the panel: initialisation and refresh.
//!
//! Initialisation pulses the reset line, waits for the panel and sends the
//! thirteen commands that configure it.  A refresh is a whole initialisation
//! followed by the transfer of the framebuffer, the refresh proper and the
//! power-down.  Neither program may be reordered or cut short.

use vstd::prelude::*;
use crate::bus::{Level, Line};
use crate::command::Command;
use crate::engine::{commands_of, Op, PanelState, Stage};

verus! {

/// Time the reset line is held at each level, in milliseconds.
pub const RESET_HOLD_MS: u64 = 30;

/// Time allowed for the panel to become ready after a reset or a power-on,
/// in milliseconds.
pub const READY_TIMEOUT_MS: u64 = 300;

/// Time allowed for the panel to finish a refresh or a power-down, in
/// milliseconds.
pub const REFRESH_TIMEOUT_MS: u64 = 32_000;

/// The commands of the initialisation, in the order in which they are sent.
pub open spec fn init_commands() -> Seq<Command> {
    seq![
        Command::Preamble,
        Command::Pwr,
        Command::Psr,
        Command::Btst1,
        Command::Btst3,
        Command::Btst2,
        Command::Pofs,
        Command::Tcon,
        Command::Pll,
        Command::Cdi,
        Command::Tres,
        Command::Pws,
        Command::Vdcs,
    ]
}

/// The commands that a refresh sends after those of the initialisation.
pub open spec fn refresh_commands() -> Seq<Command> {
    seq![Command::Dtm1, Command::Pon, Command::Btst2PowerOn, Command::Drf, Command::Pof]
}

/// The stage that runs `op` while the panel is in `state`.
pub open spec fn stage(op: Op, state: PanelState) -> Stage {
    Stage { op, state }
}

/// The reset: the line is pulled low and released, held for a while at
/// either level, and the panel is waited for.
pub open spec fn reset_stages() -> Seq<Stage> {
    seq![
        stage(Op::Drive(Line::Reset, Level::Low), PanelState::Resetting),
        stage(Op::Sleep(RESET_HOLD_MS), PanelState::Resetting),
        stage(Op::Drive(Line::Reset, Level::High), PanelState::Resetting),
        stage(Op::Sleep(RESET_HOLD_MS), PanelState::Resetting),
        stage(Op::WaitReady(READY_TIMEOUT_MS), PanelState::Resetting),
    ]
}

/// One stage for each of `commands`, in order, all in `state`.
pub open spec fn send_stages(commands: Seq<Command>, state: PanelState) -> Seq<Stage> {
    Seq::new(commands.len(), |i: int| stage(Op::Send(commands[i]), state))
}

/// The program of the initialisation.
pub open spec fn init_program() -> Seq<Stage> {
    reset_stages() + send_stages(init_commands(), PanelState::Resetting)
}

/// What a refresh does once the panel is initialised.
pub open spec fn refresh_stages() -> Seq<Stage> {
    seq![
        stage(Op::Send(Command::Dtm1), PanelState::Transferring),
        stage(Op::Send(Command::Pon), PanelState::Refreshing),
        stage(Op::WaitReady(READY_TIMEOUT_MS), PanelState::Refreshing),
        stage(Op::Send(Command::Btst2PowerOn), PanelState::Refreshing),
        stage(Op::Send(Command::Drf), PanelState::Refreshing),
        stage(Op::WaitReady(REFRESH_TIMEOUT_MS), PanelState::Refreshing),
        stage(Op::Send(Command::Pof), PanelState::PoweringOff),
        stage(Op::WaitReady(REFRESH_TIMEOUT_MS), PanelState::PoweringOff),
    ]
}

/// The program of a refresh: the whole initialisation, then the rest.
pub open spec fn refresh_program() -> Seq<Stage> {
    init_program() + refresh_stages()
}

/// Builds the program of the initialisation.
pub fn init_sequence() -> (program: Vec<Stage>)
    ensures
        program@ == init_program(),
{
    let during = PanelState::Resetting;
    let mut program: Vec<Stage> = Vec::new();
    program.push(Stage { op: Op::Drive(Line::Reset, Level::Low), state: during });
    program.push(Stage { op: Op::Sleep(RESET_HOLD_MS), state: during });
    program.push(Stage { op: Op::Drive(Line::Reset, Level::High), state: during });
    program.push(Stage { op: Op::Sleep(RESET_HOLD_MS), state: during });

    program.push(Stage { op: Op::WaitReady(READY_TIMEOUT_MS), state: during });

    program.push(Stage { op: Op::Send(Command::Preamble), state: during });
    program.push(Stage { op: Op::Send(Command::Pwr), state: during });
    program.push(Stage { op: Op::Send(Command::Psr), state: during });

    program.push(Stage { op: Op::Send(Command::Btst1), state: during });
    program.push(Stage { op: Op::Send(Command::Btst3), state: during });
    program.push(Stage { op: Op::Send(Command::Btst2), state: during });

    program.push(Stage { op: Op::Send(Command::Pofs), state: during });
    program.push(Stage { op: Op::Send(Command::Tcon), state: during });
    program.push(Stage { op: Op::Send(Command::Pll), state: during });
    program.push(Stage { op: Op::Send(Command::Cdi), state: during });
    program.push(Stage { op: Op::Send(Command::Tres), state: during });
    program.push(Stage { op: Op::Send(Command::Pws), state: during });
    program.push(Stage { op: Op::Send(Command::Vdcs), state: during });
    assert(program@ =~= init_program());
    program
}

/// Builds the program of a refresh.
pub fn refresh_sequence() -> (program: Vec<Stage>)
    ensures
        program@ == refresh_program(),
{
    let mut program = init_sequence();

    program.push(Stage { op: Op::Send(Command::Dtm1), state: PanelState::Transferring });
    program.push(Stage { op: Op::Send(Command::Pon), state: PanelState::Refreshing });
    program.push(Stage { op: Op::WaitReady(READY_TIMEOUT_MS), state: PanelState::Refreshing });
    program.push(Stage { op: Op::Send(Command::Btst2PowerOn), state: PanelState::Refreshing });

    program.push(Stage { op: Op::Send(Command::Drf), state: PanelState::Refreshing });

    program.push(Stage { op: Op::WaitReady(REFRESH_TIMEOUT_MS), state: PanelState::Refreshing });

    program.push(Stage { op: Op::Send(Command::Pof), state: PanelState::PoweringOff });

    program.push(Stage { op: Op::WaitReady(REFRESH_TIMEOUT_MS), state: PanelState::PoweringOff });
    assert(program@ =~= refresh_program());
    program
}

/// A program made of two parts sends the commands of the first, then those
/// of the second.
pub proof fn lemma_commands_of_concat(a: Seq<Stage>, b: Seq<Stage>)
    ensures
        commands_of(a + b) == commands_of(a) + commands_of(b),
    decreases b.len(),
{
    if b.len() == 0 {
        assert(a + b =~= a);
        assert(commands_of(a) + commands_of(b) =~= commands_of(a));
    } else {
        lemma_commands_of_concat(a, b.drop_last());
        assert((a + b).drop_last() =~= a + b.drop_last());
        assert((a + b).last() == b.last());
        match b.last().op {
            Op::Send(command) => {
                assert(commands_of(a + b) == commands_of(a + b.drop_last()).push(command));
                assert((commands_of(a) + commands_of(b.drop_last())).push(command) =~= commands_of(
                    a,
                ) + commands_of(b.drop_last()).push(command));
            },
            _ => {},
        }
    }
}

/// A program that only sends commands sends exactly those, in order.
pub proof fn lemma_commands_of_send_stages(commands: Seq<Command>, state: PanelState)
    ensures
        commands_of(send_stages(commands, state)) == commands,
    decreases commands.len(),
{
    let stages = send_stages(commands, state);
    if commands.len() == 0 {
        assert(commands_of(stages) =~= commands);
    } else {
        lemma_commands_of_send_stages(commands.drop_last(), state);
        assert(stages.drop_last() =~= send_stages(commands.drop_last(), state));
        assert(stages.last().op == Op::Send(commands.last()));
        assert(commands.drop_last().push(commands.last()) =~= commands);
    }
}

/// The reset sends no command.
pub proof fn lemma_reset_sends_nothing()
    ensures
        commands_of(reset_stages()) == Seq::<Command>::empty(),
{
    let s5 = reset_stages();
    let s4 = s5.drop_last();
    let s3 = s4.drop_last();
    let s2 = s3.drop_last();
    let s1 = s2.drop_last();
    let s0 = s1.drop_last();
    assert(commands_of(s0) == Seq::<Command>::empty());
    assert(commands_of(s1) == commands_of(s0));
    assert(commands_of(s2) == commands_of(s1));
    assert(commands_of(s3) == commands_of(s2));
    assert(commands_of(s4) == commands_of(s3));
    assert(commands_of(s5) == commands_of(s4));
}

/// After the initialisation a refresh sends its five commands, in order.
pub proof fn lemma_refresh_stages_send_five()
    ensures
        commands_of(refresh_stages()) == refresh_commands(),
{
    let s8 = refresh_stages();
    let s7 = s8.drop_last();
    let s6 = s7.drop_last();
    let s5 = s6.drop_last();
    let s4 = s5.drop_last();
    let s3 = s4.drop_last();
    let s2 = s3.drop_last();
    let s1 = s2.drop_last();
    let s0 = s1.drop_last();
    assert(commands_of(s0) == Seq::<Command>::empty());
    assert(commands_of(s1) == commands_of(s0).push(Command::Dtm1));
    assert(commands_of(s2) == commands_of(s1).push(Command::Pon));
    assert(commands_of(s3) == commands_of(s2));
    assert(commands_of(s4) == commands_of(s3).push(Command::Btst2PowerOn));
    assert(commands_of(s5) == commands_of(s4).push(Command::Drf));
    assert(commands_of(s6) == commands_of(s5));
    assert(commands_of(s7) == commands_of(s6).push(Command::Pof));
    assert(commands_of(s8) == commands_of(s7));
    assert(commands_of(s8) =~= refresh_commands());
}

/// The initialisation sends exactly its thirteen commands, in the order of
/// the table.  A refresh sends the same thirteen first and then five more:
/// display data, power on, booster, refresh, power off.
pub proof fn law_programs_send_the_vendor_sequence()
    ensures
        commands_of(init_program()) == init_commands(),
        init_commands().len() == 13,
        commands_of(refresh_program()) == init_commands() + refresh_commands(),
        refresh_commands().len() == 5,
        commands_of(refresh_program()).len() == 18,
        refresh_program().subrange(0, init_program().len() as int) == init_program(),
{
    lemma_reset_sends_nothing();
    lemma_commands_of_send_stages(init_commands(), PanelState::Resetting);
    lemma_commands_of_concat(
        reset_stages(),
        send_stages(init_commands(), PanelState::Resetting),
    );
    assert(Seq::<Command>::empty() + init_commands() =~= init_commands());
    lemma_refresh_stages_send_five();
    lemma_commands_of_concat(init_program(), refresh_stages());
    assert(refresh_program().subrange(0, init_program().len() as int) =~= init_program());
}

} // verus!
