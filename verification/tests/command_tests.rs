use rustworks::commands::Command;
use rustworks::qspi::{OperatingModes, QspiMode, QspiSize, QspiWidth};

#[test]
fn opcodes_match_the_vendor_command_set() {
    assert_eq!(Command::ReadStatusRegister1.opcode(), 0x05);
    assert_eq!(Command::ReadStatusRegister2.opcode(), 0x35);
    assert_eq!(Command::WriteStatusRegister.opcode(), 0x01);
    assert_eq!(Command::WriteStatusRegister2.opcode(), 0x31);
    assert_eq!(Command::WriteEnable.opcode(), 0x06);
    assert_eq!(Command::WriteEnableVolatile.opcode(), 0x50);
    assert_eq!(Command::ReadData.opcode(), 0x03);
    assert_eq!(Command::FastRead.opcode(), 0x0B);
    assert_eq!(Command::FastReadQuadIO.opcode(), 0xEB);
    assert_eq!(Command::PageProgram.opcode(), 0x02);
    assert_eq!(Command::QuadPageProgram.opcode(), 0x33);
    assert_eq!(Command::EnableQPI.opcode(), 0x38);
    assert_eq!(Command::EnableReset.opcode(), 0x66);
    assert_eq!(Command::Reset.opcode(), 0x99);
    assert_eq!(Command::ChipErase.opcode(), 0xC7);
    assert_eq!(Command::Erase4KbyteBlock.opcode(), 0x20);
    assert_eq!(Command::Erase32KbyteBlock.opcode(), 0x52);
    assert_eq!(Command::Erase64KbyteBlock.opcode(), 0xD8);
    assert_eq!(Command::SetReadParameters.opcode(), 0xC0);
    assert_eq!(Command::DeepPowerDown.opcode(), 0xB9);
    assert_eq!(Command::ReleaseDeepPowerDown.opcode(), 0xAB);
    assert_eq!(Command::ReadIds.opcode(), 0x90);
    assert_eq!(Command::ReadJEDECID.opcode(), 0x9F);
}

#[test]
fn lane_width_bits() {
    assert_eq!(QspiWidth::NoLane.bits(), 0b00);
    assert_eq!(QspiWidth::Single.bits(), 0b01);
    assert_eq!(QspiWidth::Dual.bits(), 0b10);
    assert_eq!(QspiWidth::Quad.bits(), 0b11);
}

#[test]
fn functional_mode_bits() {
    assert_eq!(QspiMode::IndirectWrite.bits(), 0b00);
    assert_eq!(QspiMode::IndirectRead.bits(), 0b01);
    assert_eq!(QspiMode::AutoPolling.bits(), 0b10);
    assert_eq!(QspiMode::MemoryMapped.bits(), 0b11);
}

#[test]
fn address_size_bits() {
    assert_eq!(QspiSize::OneByte.bits(), 0b00);
    assert_eq!(QspiSize::TwoBytes.bits(), 0b01);
    assert_eq!(QspiSize::ThreeBytes.bits(), 0b10);
    assert_eq!(QspiSize::FourBytes.bits(), 0b11);
}

#[test]
fn operating_mode_phase_widths() {
    assert_eq!(OperatingModes::Modes100.imode(), QspiWidth::Single);
    assert_eq!(OperatingModes::Modes100.amode(), QspiWidth::NoLane);
    assert_eq!(OperatingModes::Modes100.dmode(), QspiWidth::NoLane);
    assert_eq!(OperatingModes::Modes101.dmode(), QspiWidth::Single);
    assert_eq!(OperatingModes::Modes110.amode(), QspiWidth::Single);
    assert_eq!(OperatingModes::Modes110.dmode(), QspiWidth::NoLane);
    assert_eq!(OperatingModes::Modes114.amode(), QspiWidth::Single);
    assert_eq!(OperatingModes::Modes114.dmode(), QspiWidth::Quad);
    assert_eq!(OperatingModes::Modes144.amode(), QspiWidth::Quad);
    assert_eq!(OperatingModes::Modes144.dmode(), QspiWidth::Quad);
}
