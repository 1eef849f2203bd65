//! The chip's fixed instruction vocabulary and the opcode each instruction is
//! sent as. The opcode values are the chip vendor's and must match the wire
//! protocol bit for bit.

use vstd::prelude::*;

verus! {

/// Instructions the driver can send to the flash chip.
#[derive(Clone, Copy, PartialEq, Eq, Structural, Debug)]
pub enum Command {
    ReadStatusRegister1,
    ReadStatusRegister2,
    WriteStatusRegister,
    WriteStatusRegister2,
    WriteEnable,
    WriteEnableVolatile,
    ReadData,
    FastRead,
    FastReadQuadIO,
    PageProgram,
    QuadPageProgram,
    EnableQPI,
    EnableReset,
    Reset,
    ChipErase,
    Erase4KbyteBlock,
    Erase32KbyteBlock,
    Erase64KbyteBlock,
    SetReadParameters,
    DeepPowerDown,
    ReleaseDeepPowerDown,
    ReadIds,
    ReadJEDECID,
}

/// The wire opcode of each instruction.
pub open spec fn spec_opcode(c: Command) -> u8 {
    match c {
        Command::ReadStatusRegister1 => 0x05,
        Command::ReadStatusRegister2 => 0x35,
        Command::WriteStatusRegister => 0x01,
        Command::WriteStatusRegister2 => 0x31,
        Command::WriteEnable => 0x06,
        Command::WriteEnableVolatile => 0x50,
        Command::ReadData => 0x03,
        Command::FastRead => 0x0B,
        Command::FastReadQuadIO => 0xEB,
        Command::PageProgram => 0x02,
        Command::QuadPageProgram => 0x33,
        Command::EnableQPI => 0x38,
        Command::EnableReset => 0x66,
        Command::Reset => 0x99,
        Command::ChipErase => 0xC7,
        Command::Erase4KbyteBlock => 0x20,
        Command::Erase32KbyteBlock => 0x52,
        Command::Erase64KbyteBlock => 0xD8,
        Command::SetReadParameters => 0xC0,
        Command::DeepPowerDown => 0xB9,
        Command::ReleaseDeepPowerDown => 0xAB,
        Command::ReadIds => 0x90,
        Command::ReadJEDECID => 0x9F,
    }
}

impl Command {
    /// The opcode this instruction is sent as.
    pub fn opcode(self) -> (op: u8)
        ensures
            op == spec_opcode(self),
    {
        match self {
            Command::ReadStatusRegister1 => 0x05,
            Command::ReadStatusRegister2 => 0x35,
            Command::WriteStatusRegister => 0x01,
            Command::WriteStatusRegister2 => 0x31,
            Command::WriteEnable => 0x06,
            Command::WriteEnableVolatile => 0x50,
            Command::ReadData => 0x03,
            Command::FastRead => 0x0B,
            Command::FastReadQuadIO => 0xEB,
            Command::PageProgram => 0x02,
            Command::QuadPageProgram => 0x33,
            Command::EnableQPI => 0x38,
            Command::EnableReset => 0x66,
            Command::Reset => 0x99,
            Command::ChipErase => 0xC7,
            Command::Erase4KbyteBlock => 0x20,
            Command::Erase32KbyteBlock => 0x52,
            Command::Erase64KbyteBlock => 0xD8,
            Command::SetReadParameters => 0xC0,
            Command::DeepPowerDown => 0xB9,
            Command::ReleaseDeepPowerDown => 0xAB,
            Command::ReadIds => 0x90,
            Command::ReadJEDECID => 0x9F,
        }
    }
}

/// Whether the instruction erases one block, and of which size.
pub open spec fn erase_block_size(c: Command) -> Option<int> {
    match c {
        Command::Erase4KbyteBlock => Some(crate::geometry::SIZE_4K as int),
        Command::Erase32KbyteBlock => Some(crate::geometry::SIZE_32K as int),
        Command::Erase64KbyteBlock => Some(crate::geometry::SIZE_64K as int),
        _ => None,
    }
}

/// Whether the instruction programs one page.
pub open spec fn is_program(c: Command) -> bool {
    c is PageProgram || c is QuadPageProgram
}

/// Whether the instruction mutates the chip's state machine or array and so
/// leaves the chip busy until its write-in-progress flag clears.
pub open spec fn is_busy_command(c: Command) -> bool {
    ||| c is ChipErase
    ||| erase_block_size(c) is Some
    ||| is_program(c)
    ||| c is WriteStatusRegister
    ||| c is WriteStatusRegister2
}

} // verus!
