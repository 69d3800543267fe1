use inky::bus::{Level, Line};
use inky::command::Command;
use inky::engine::{Op, PanelState, Stage};
use inky::sequence::{init_sequence, refresh_sequence};

const INIT: [Command; 13] = [
    Command::Preamble,
    Command::Pwr,
    Command::Psr,
    Command::Btst1,
    Command::Btst3,
    Command::Btst2,
    Command::Pofs,
    Command::Tcon,
    Command::Pll,
    Command::Cdi,
    Command::Tres,
    Command::Pws,
    Command::Vdcs,
];

fn sent(program: &[Stage]) -> Vec<Command> {
    program
        .iter()
        .filter_map(|stage| match stage.op {
            Op::Send(command) => Some(command),
            _ => None,
        })
        .collect()
}

#[test]
fn opcodes_follow_the_vendor_table() {
    assert_eq!(Command::Preamble.opcode(), 0xAA);
    assert_eq!(Command::Pwr.opcode(), 0x01);
    assert_eq!(Command::Psr.opcode(), 0x00);
    assert_eq!(Command::Btst1.opcode(), 0x05);
    assert_eq!(Command::Btst3.opcode(), 0x08);
    assert_eq!(Command::Btst2.opcode(), 0x06);
    assert_eq!(Command::Pofs.opcode(), 0x03);
    assert_eq!(Command::Tcon.opcode(), 0x60);
    assert_eq!(Command::Pll.opcode(), 0x30);
    assert_eq!(Command::Cdi.opcode(), 0x50);
    assert_eq!(Command::Tres.opcode(), 0x61);
    assert_eq!(Command::Pws.opcode(), 0xE3);
    assert_eq!(Command::Vdcs.opcode(), 0x82);
    assert_eq!(Command::Dtm1.opcode(), 0x10);
    assert_eq!(Command::Pon.opcode(), 0x04);
    assert_eq!(Command::Btst2PowerOn.opcode(), 0x06);
    assert_eq!(Command::Drf.opcode(), 0x12);
    assert_eq!(Command::Pof.opcode(), 0x02);
}

#[test]
fn payloads_follow_the_vendor_table() {
    let pixels = [0u8; 4];
    assert_eq!(Command::Preamble.payload(&pixels), Some(vec![0x49, 0x55, 0x20, 0x08, 0x09, 0x18]));
    assert_eq!(Command::Pwr.payload(&pixels), Some(vec![0x3F]));
    assert_eq!(Command::Psr.payload(&pixels), Some(vec![0x5F, 0x69]));
    assert_eq!(Command::Btst1.payload(&pixels), Some(vec![0x40, 0x1F, 0x1F, 0x2C]));
    assert_eq!(Command::Btst3.payload(&pixels), Some(vec![0x6F, 0x1F, 0x1F, 0x22]));
    assert_eq!(Command::Btst2.payload(&pixels), Some(vec![0x6F, 0x1F, 0x17, 0x17]));
    assert_eq!(Command::Pofs.payload(&pixels), Some(vec![0x00, 0x54, 0x00, 0x44]));
    assert_eq!(Command::Tcon.payload(&pixels), Some(vec![0x02, 0x00]));
    assert_eq!(Command::Pll.payload(&pixels), Some(vec![0x08]));
    assert_eq!(Command::Cdi.payload(&pixels), Some(vec![0x3F]));
    assert_eq!(Command::Tres.payload(&pixels), Some(vec![0x03, 0x20, 0x01, 0xE0]));
    assert_eq!(Command::Pws.payload(&pixels), Some(vec![0x2F]));
    assert_eq!(Command::Vdcs.payload(&pixels), Some(vec![0x01]));
    assert_eq!(Command::Btst2PowerOn.payload(&pixels), Some(vec![0x6F, 0x1F, 0x17, 0x49]));
    assert_eq!(Command::Drf.payload(&pixels), Some(vec![0x00]));
    assert_eq!(Command::Pof.payload(&pixels), Some(vec![0x00]));
}

#[test]
fn power_on_has_no_payload_at_all() {
    assert_eq!(Command::Pon.payload(&[1, 2, 3]), None);
}

#[test]
fn display_data_is_the_packed_framebuffer() {
    assert_eq!(Command::Dtm1.payload(&[1, 2, 3]), Some(vec![0x12, 0x30]));
    assert_eq!(Command::Dtm1.payload(&[]), Some(Vec::new()));
}

#[test]
fn resolution_payload_encodes_800_by_480() {
    let payload = Command::Tres.payload(&[]).unwrap();
    assert_eq!(u16::from_be_bytes([payload[0], payload[1]]), 800);
    assert_eq!(u16::from_be_bytes([payload[2], payload[3]]), 480);
}

#[test]
fn init_program_resets_waits_and_sends_thirteen_commands() {
    let program = init_sequence();
    assert_eq!(program.len(), 18);
    assert_eq!(program[0].op, Op::Drive(Line::Reset, Level::Low));
    assert_eq!(program[1].op, Op::Sleep(30));
    assert_eq!(program[2].op, Op::Drive(Line::Reset, Level::High));
    assert_eq!(program[3].op, Op::Sleep(30));
    assert_eq!(program[4].op, Op::WaitReady(300));
    assert_eq!(sent(&program), INIT.to_vec());
    assert_eq!(sent(&program[..5]), Vec::new());
    assert!(program.iter().all(|stage| stage.state == PanelState::Resetting));
}

#[test]
fn refresh_program_is_the_init_program_and_eight_more_stages() {
    let program = refresh_sequence();
    assert_eq!(program.len(), 26);
    assert_eq!(&program[..18], &init_sequence()[..]);
    let tail: Vec<(Op, PanelState)> =
        program[18..].iter().map(|stage| (stage.op, stage.state)).collect();
    assert_eq!(
        tail,
        vec![
            (Op::Send(Command::Dtm1), PanelState::Transferring),
            (Op::Send(Command::Pon), PanelState::Refreshing),
            (Op::WaitReady(300), PanelState::Refreshing),
            (Op::Send(Command::Btst2PowerOn), PanelState::Refreshing),
            (Op::Send(Command::Drf), PanelState::Refreshing),
            (Op::WaitReady(32_000), PanelState::Refreshing),
            (Op::Send(Command::Pof), PanelState::PoweringOff),
            (Op::WaitReady(32_000), PanelState::PoweringOff),
        ]
    );
    let mut expected = INIT.to_vec();
    expected.extend([
        Command::Dtm1,
        Command::Pon,
        Command::Btst2PowerOn,
        Command::Drf,
        Command::Pof,
    ]);
    assert_eq!(sent(&program), expected);
}
