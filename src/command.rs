//! The fixed command set of the sensor, each a literal frame with its checksum.

use crate::checksum::{crc_byte, frame_valid};
use vstd::prelude::*;

verus! {

/// A command of the sensor's fixed set.
#[derive(Clone, Copy, Debug, PartialEq, Eq)]
pub enum Command {
    WakeUp,
    SwitchBank0,
    SoftwareReset,
    SetMode1,
    EnableAngles,
    ReadStatus,
    ReadIdentity,
    ReadAngleX,
    ReadAngleY,
    ReadAngleZ,
}

/// The four bytes sent on the bus for each command.
pub open spec fn command_frame(c: Command) -> Seq<u8> {
    match c {
        Command::WakeUp => seq![0xB4u8, 0x00u8, 0x00u8, 0x1Fu8],
        Command::SwitchBank0 => seq![0xFCu8, 0x00u8, 0x00u8, 0x73u8],
        Command::SoftwareReset => seq![0xB4u8, 0x00u8, 0x20u8, 0x98u8],
        Command::SetMode1 => seq![0xB4u8, 0x00u8, 0x00u8, 0x1Fu8],
        Command::EnableAngles => seq![0xB0u8, 0x00u8, 0x1Fu8, 0x6Fu8],
        Command::ReadStatus => seq![0x18u8, 0x00u8, 0x00u8, 0xE5u8],
        Command::ReadIdentity => seq![0x40u8, 0x00u8, 0x00u8, 0x91u8],
        Command::ReadAngleX => seq![0x24u8, 0x00u8, 0x00u8, 0xC7u8],
        Command::ReadAngleY => seq![0x28u8, 0x00u8, 0x00u8, 0xCDu8],
        Command::ReadAngleZ => seq![0x2Cu8, 0x00u8, 0x00u8, 0xCBu8],
    }
}

impl Command {
    /// The frame to write for this command.
    pub fn bytes(self) -> (r: [u8; 4])
        ensures
            r@ == command_frame(self),
    {
        let r: [u8; 4] = match self {
            Command::WakeUp => [0xB4, 0x00, 0x00, 0x1F],
            Command::SwitchBank0 => [0xFC, 0x00, 0x00, 0x73],
            Command::SoftwareReset => [0xB4, 0x00, 0x20, 0x98],
            Command::SetMode1 => [0xB4, 0x00, 0x00, 0x1F],
            Command::EnableAngles => [0xB0, 0x00, 0x1F, 0x6F],
            Command::ReadStatus => [0x18, 0x00, 0x00, 0xE5],
            Command::ReadIdentity => [0x40, 0x00, 0x00, 0x91],
            Command::ReadAngleX => [0x24, 0x00, 0x00, 0xC7],
            Command::ReadAngleY => [0x28, 0x00, 0x00, 0xCD],
            Command::ReadAngleZ => [0x2C, 0x00, 0x00, 0xCB],
        };
        assert(r@ =~= command_frame(self));
        r
    }
}

/// Every command of the set carries a checksum that validates.
pub proof fn lemma_commands_valid(c: Command)
    ensures
        frame_valid(command_frame(c)),
{
    match c {
        Command::WakeUp | Command::SetMode1 => {
            assert(crc_byte(0xFFu8, 0xB4u8) == 0xDCu8 && crc_byte(0xDCu8, 0x00u8) == 0x64u8
                && crc_byte(0x64u8, 0x00u8) == 0xE0u8 && !0xE0u8 == 0x1Fu8) by (bit_vector);
        },
        Command::SwitchBank0 => {
            assert(crc_byte(0xFFu8, 0xFCu8) == 0x27u8 && crc_byte(0x27u8, 0x00u8) == 0xD4u8
                && crc_byte(0xD4u8, 0x00u8) == 0x8Cu8 && !0x8Cu8 == 0x73u8) by (bit_vector);
        },
        Command::SoftwareReset => {
            assert(crc_byte(0xFFu8, 0xB4u8) == 0xDCu8 && crc_byte(0xDCu8, 0x00u8) == 0x64u8
                && crc_byte(0x64u8, 0x20u8) == 0x67u8 && !0x67u8 == 0x98u8) by (bit_vector);
        },
        Command::EnableAngles => {
            assert(crc_byte(0xFFu8, 0xB0u8) == 0xA8u8 && crc_byte(0xA8u8, 0x00u8) == 0x49u8
                && crc_byte(0x49u8, 0x1Fu8) == 0x90u8 && !0x90u8 == 0x6Fu8) by (bit_vector);
        },
        Command::ReadStatus => {
            assert(crc_byte(0xFFu8, 0x18u8) == 0xE1u8 && crc_byte(0xE1u8, 0x00u8) == 0xAFu8
                && crc_byte(0xAFu8, 0x00u8) == 0x1Au8 && !0x1Au8 == 0xE5u8) by (bit_vector);
        },
        Command::ReadIdentity => {
            assert(crc_byte(0xFFu8, 0x40u8) == 0xD7u8 && crc_byte(0xD7u8, 0x00u8) == 0xABu8
                && crc_byte(0xABu8, 0x00u8) == 0x6Eu8 && !0x6Eu8 == 0x91u8) by (bit_vector);
        },
        Command::ReadAngleX => {
            assert(crc_byte(0xFFu8, 0x24u8) == 0x37u8 && crc_byte(0x37u8, 0x00u8) == 0x19u8
                && crc_byte(0x19u8, 0x00u8) == 0x38u8 && !0x38u8 == 0xC7u8) by (bit_vector);
        },
        Command::ReadAngleY => {
            assert(crc_byte(0xFFu8, 0x28u8) == 0xABu8 && crc_byte(0xABu8, 0x00u8) == 0x6Eu8
                && crc_byte(0x6Eu8, 0x00u8) == 0x32u8 && !0x32u8 == 0xCDu8) by (bit_vector);
        },
        Command::ReadAngleZ => {
            assert(crc_byte(0xFFu8, 0x2Cu8) == 0xDFu8 && crc_byte(0xDFu8, 0x00u8) == 0x43u8
                && crc_byte(0x43u8, 0x00u8) == 0x34u8 && !0x34u8 == 0xCBu8) by (bit_vector);
        },
    }
}

} // verus!
