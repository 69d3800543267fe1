//! The commands of the panel controller and what each carries.
//!
//! The set is closed: every command the driver ever sends is a variant of
//! [`Command`], with its opcode and its payload fixed here.

use vstd::prelude::*;
use crate::packing::{pack_nibbles, packed};

verus! {

pub const EL673_PSR: u8 = 0x00;

pub const EL673_PWR: u8 = 0x01;

pub const EL673_POF: u8 = 0x02;

pub const EL673_POFS: u8 = 0x03;

pub const EL673_PON: u8 = 0x04;

pub const EL673_BTST1: u8 = 0x05;

pub const EL673_BTST2: u8 = 0x06;

pub const EL673_BTST3: u8 = 0x08;

pub const EL673_DTM1: u8 = 0x10;

pub const EL673_DRF: u8 = 0x12;

pub const EL673_PLL: u8 = 0x30;

pub const EL673_CDI: u8 = 0x50;

pub const EL673_TCON: u8 = 0x60;

pub const EL673_TRES: u8 = 0x61;

pub const EL673_VDCS: u8 = 0x82;

pub const EL673_PWS: u8 = 0xE3;

/// Opcode of the command that opens the initialisation.
pub const EL673_PREAMBLE: u8 = 0xAA;

/// A command of the panel controller.
#[derive(Clone, Copy, Debug, PartialEq, Eq, Structural)]
pub enum Command {
    /// Opens the initialisation.
    Preamble,
    /// Power setting.
    Pwr,
    /// Panel setting.
    Psr,
    /// Booster soft start, first stage.
    Btst1,
    /// Booster soft start, third stage.
    Btst3,
    /// Booster soft start, second stage, as set during initialisation.
    Btst2,
    /// Power-off sequence setting.
    Pofs,
    /// Gate and source timing.
    Tcon,
    /// Clock frequency.
    Pll,
    /// Border and data polarity.
    Cdi,
    /// Resolution: declares the panel to be 800 by 480.
    Tres,
    /// Power-saving level.
    Pws,
    /// VCOM level.
    Vdcs,
    /// Display data: carries the packed framebuffer.
    Dtm1,
    /// Power on.  Carries no payload at all.
    Pon,
    /// Booster soft start, second stage, as set once the panel is powered.
    Btst2PowerOn,
    /// Display refresh.
    Drf,
    /// Power off.
    Pof,
}

/// A payload as specifications see it.
pub open spec fn payload_view(data: Option<Vec<u8>>) -> Option<Seq<u8>> {
    match data {
        Some(bytes) => Some(bytes@),
        None => None,
    }
}

impl Command {
    /// The opcode byte of the command.
    pub open spec fn spec_opcode(self) -> u8 {
        match self {
            Command::Preamble => EL673_PREAMBLE,
            Command::Pwr => EL673_PWR,
            Command::Psr => EL673_PSR,
            Command::Btst1 => EL673_BTST1,
            Command::Btst3 => EL673_BTST3,
            Command::Btst2 => EL673_BTST2,
            Command::Pofs => EL673_POFS,
            Command::Tcon => EL673_TCON,
            Command::Pll => EL673_PLL,
            Command::Cdi => EL673_CDI,
            Command::Tres => EL673_TRES,
            Command::Pws => EL673_PWS,
            Command::Vdcs => EL673_VDCS,
            Command::Dtm1 => EL673_DTM1,
            Command::Pon => EL673_PON,
            Command::Btst2PowerOn => EL673_BTST2,
            Command::Drf => EL673_DRF,
            Command::Pof => EL673_POF,
        }
    }

    /// The payload that follows the opcode when the framebuffer holds
    /// `pixels`, or `None` for a command that carries none.
    pub open spec fn spec_payload(self, pixels: Seq<u8>) -> Option<Seq<u8>> {
        match self {
            Command::Preamble => Some(seq![0x49u8, 0x55u8, 0x20u8, 0x08u8, 0x09u8, 0x18u8]),
            Command::Pwr => Some(seq![0x3Fu8]),
            Command::Psr => Some(seq![0x5Fu8, 0x69u8]),
            Command::Btst1 => Some(seq![0x40u8, 0x1Fu8, 0x1Fu8, 0x2Cu8]),
            Command::Btst3 => Some(seq![0x6Fu8, 0x1Fu8, 0x1Fu8, 0x22u8]),
            Command::Btst2 => Some(seq![0x6Fu8, 0x1Fu8, 0x17u8, 0x17u8]),
            Command::Pofs => Some(seq![0x00u8, 0x54u8, 0x00u8, 0x44u8]),
            Command::Tcon => Some(seq![0x02u8, 0x00u8]),
            Command::Pll => Some(seq![0x08u8]),
            Command::Cdi => Some(seq![0x3Fu8]),
            Command::Tres => Some(seq![0x03u8, 0x20u8, 0x01u8, 0xE0u8]),
            Command::Pws => Some(seq![0x2Fu8]),
            Command::Vdcs => Some(seq![0x01u8]),
            Command::Dtm1 => Some(packed(pixels)),
            Command::Pon => None,
            Command::Btst2PowerOn => Some(seq![0x6Fu8, 0x1Fu8, 0x17u8, 0x49u8]),
            Command::Drf => Some(seq![0x00u8]),
            Command::Pof => Some(seq![0x00u8]),
        }
    }

    /// The opcode byte of the command.
    pub fn opcode(self) -> (code: u8)
        ensures
            code == self.spec_opcode(),
    {
        match self {
            Command::Preamble => EL673_PREAMBLE,
            Command::Pwr => EL673_PWR,
            Command::Psr => EL673_PSR,
            Command::Btst1 => EL673_BTST1,
            Command::Btst3 => EL673_BTST3,
            Command::Btst2 => EL673_BTST2,
            Command::Pofs => EL673_POFS,
            Command::Tcon => EL673_TCON,
            Command::Pll => EL673_PLL,
            Command::Cdi => EL673_CDI,
            Command::Tres => EL673_TRES,
            Command::Pws => EL673_PWS,
            Command::Vdcs => EL673_VDCS,
            Command::Dtm1 => EL673_DTM1,
            Command::Pon => EL673_PON,
            Command::Btst2PowerOn => EL673_BTST2,
            Command::Drf => EL673_DRF,
            Command::Pof => EL673_POF,
        }
    }

    /// Builds the payload of the command from the framebuffer `pixels`.
    pub fn payload(self, pixels: &[u8]) -> (data: Option<Vec<u8>>)
        ensures
            payload_view(data) == self.spec_payload(pixels@),
            data matches Some(bytes) ==> bytes@.len() <= usize::MAX,
    {
        let data = match self {
            Command::Preamble => Some(vec![0x49, 0x55, 0x20, 0x08, 0x09, 0x18]),
            Command::Pwr => Some(vec![0x3F]),
            Command::Psr => Some(vec![0x5F, 0x69]),
            Command::Btst1 => Some(vec![0x40, 0x1F, 0x1F, 0x2C]),
            Command::Btst3 => Some(vec![0x6F, 0x1F, 0x1F, 0x22]),
            Command::Btst2 => Some(vec![0x6F, 0x1F, 0x17, 0x17]),
            Command::Pofs => Some(vec![0x00, 0x54, 0x00, 0x44]),
            Command::Tcon => Some(vec![0x02, 0x00]),
            Command::Pll => Some(vec![0x08]),
            Command::Cdi => Some(vec![0x3F]),
            Command::Tres => Some(vec![0x03, 0x20, 0x01, 0xE0]),
            Command::Pws => Some(vec![0x2F]),
            Command::Vdcs => Some(vec![0x01]),
            Command::Dtm1 => Some(pack_nibbles(pixels)),
            Command::Pon => None,
            Command::Btst2PowerOn => Some(vec![0x6F, 0x1F, 0x17, 0x49]),
            Command::Drf => Some(vec![0x00]),
            Command::Pof => Some(vec![0x00]),
        };
        match &data {
            Some(bytes) => {
                let _ = bytes.len();
            },
            None => {},
        }
        data
    }
}

/// The resolution command declares the panel's width and height, each as two
/// bytes with the high byte first.
pub proof fn law_tres_declares_the_resolution(pixels: Seq<u8>)
    ensures
        Command::Tres.spec_payload(pixels) == Some(
            seq![
                (crate::WIDTH / 256) as u8,
                (crate::WIDTH % 256) as u8,
                (crate::HEIGHT / 256) as u8,
                (crate::HEIGHT % 256) as u8,
            ],
        ),
{
    assert(seq![0x03u8, 0x20u8, 0x01u8, 0xE0u8] =~= seq![
        (crate::WIDTH / 256) as u8,
        (crate::WIDTH % 256) as u8,
        (crate::HEIGHT / 256) as u8,
        (crate::HEIGHT % 256) as u8,
    ]);
}

/// Only the display data depends on the framebuffer, and only power-on comes
/// without a payload.
pub proof fn law_payloads_are_fixed(command: Command, a: Seq<u8>, b: Seq<u8>)
    ensures
        command != Command::Dtm1 ==> command.spec_payload(a) == command.spec_payload(b),
        command.spec_payload(a) is None <==> command == Command::Pon,
{
}

} // verus!
