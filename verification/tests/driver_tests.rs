use rustworks::commands::Command;
use rustworks::external_flash::{ExternalFlash, QUAD_ENABLE};
use rustworks::qspi::{OperatingModes, QspiMode};

#[test]
fn a_fresh_chip_reads_erased_after_init() {
    let mut flash = ExternalFlash::new().init();
    assert_eq!(flash.read_byte(0), 0xFF);
    assert_eq!(flash.read_byte(0x7F_FFFF), 0xFF);
}

#[test]
fn init_negotiates_quad_mode() {
    let flash = ExternalFlash::new().init();
    assert_eq!(flash.chip.status2, QUAD_ENABLE);
    assert!(flash.chip.qpi_enabled);
    assert_eq!(flash.chip.read_parameters, 0b0001_0000);
}

#[test]
fn write_memory_reads_back() {
    let mut flash = ExternalFlash::new().init();
    let data = [1u8, 2, 3, 4, 5];
    flash.write_memory(0x2000, &data);
    for (i, expected) in data.iter().enumerate() {
        assert_eq!(flash.read_byte(0x2000 + i as u32), *expected);
    }
    assert_eq!(flash.read_byte(0x1FFF), 0xFF);
    assert_eq!(flash.read_byte(0x2005), 0xFF);
}

#[test]
fn erase_sector_round_trip_reads_erased() {
    let mut flash = ExternalFlash::new().init();
    // Program bytes in sector 1 and right after it, erase sector 1, and
    // read the whole sector back as the erased value; the neighbour keeps
    // its byte.
    flash.write_memory(0x1000, &[0xAA; 16]);
    flash.write_memory(0x2000, &[0x55]);
    flash.erase_sector(1);
    assert_eq!(flash.read_byte(0x1000), 0xFF);
    assert_eq!(flash.read_byte(0x100F), 0xFF);
    assert_eq!(flash.read_byte(0x1FFF), 0xFF);
    assert_eq!(flash.read_byte(0x2000), 0x55);
}

#[test]
fn erasing_twice_is_like_erasing_once() {
    let mut first = ExternalFlash::new().init();
    first.write_memory(0x8000, &[7u8; 32]);
    let mut second = ExternalFlash::new().init();
    second.write_memory(0x8000, &[7u8; 32]);
    first.erase_sector(8);
    second.erase_sector(8);
    second.erase_sector(8);
    for offset in [0x8000u32, 0x8010, 0xFFFF] {
        assert_eq!(first.read_byte(offset), second.read_byte(offset));
        assert_eq!(second.read_byte(offset), 0xFF);
    }
}

#[test]
fn program_across_page_boundary_splits_in_two() {
    let mut flash = ExternalFlash::new().init();
    // 300 bytes starting at offset 200 of a 256-byte page: 56 bytes at the
    // original address, then 244 at the next page boundary.
    let data = [0x5Au8; 300];
    flash.write_memory(200, &data);
    assert_eq!(flash.chip.page_programs.len(), 2);
    assert_eq!(flash.chip.page_programs[0].offset, 200);
    assert_eq!(flash.chip.page_programs[0].length, 56);
    assert_eq!(flash.chip.page_programs[1].offset, 256);
    assert_eq!(flash.chip.page_programs[1].length, 244);
}

#[test]
fn page_aligned_program_is_one_call() {
    let mut flash = ExternalFlash::new().init();
    flash.write_memory(512, &[1u8; 256]);
    assert_eq!(flash.chip.page_programs.len(), 1);
    assert_eq!(flash.chip.page_programs[0].offset, 512);
    assert_eq!(flash.chip.page_programs[0].length, 256);
}

#[test]
fn split_and_unsplit_programs_agree() {
    // Split correctness: programming one run equals programming its parts.
    let mut whole = ExternalFlash::new().init();
    let mut parts = ExternalFlash::new().init();
    let data: Vec<u8> = (0..300u32).map(|i| (i % 251) as u8).collect();
    whole.write_memory(200, &data);
    parts.write_memory(200, &data[..56]);
    parts.write_memory(256, &data[56..]);
    for i in 0..300u32 {
        assert_eq!(whole.read_byte(200 + i), parts.read_byte(200 + i));
    }
}

#[test]
fn memory_mapped_window_serves_reads() {
    let mut flash = ExternalFlash::new().init();
    flash.write_memory(0x100, &[0xC3, 0x3C]);
    let mapped = flash.set_memory_mapped();
    assert_eq!(mapped.read_mapped(0x100), 0xC3);
    assert_eq!(mapped.read_mapped(0x101), 0x3C);
    assert_eq!(mapped.read_mapped(0x102), 0xFF);
    // Back to indirect operation: the latch is released and indirect reads
    // work again.
    let mut flash = mapped.unset_memory_mapped();
    assert_eq!(flash.read_byte(0x100), 0xC3);
}

#[test]
fn mode_transitions_drive_the_continuous_read_latch() {
    let flash = ExternalFlash::new().init();
    assert!(!flash.chip.continuous_read);
    let mapped = flash.set_memory_mapped();
    assert!(mapped.chip.continuous_read);
    assert!(mapped.regs.busy);
    assert_eq!(mapped.regs.ccr.instruction, 0xEB);
    assert!(mapped.regs.ccr.sioo);
    let flash = mapped.unset_memory_mapped();
    assert!(!flash.chip.continuous_read);
    assert!(!flash.regs.busy);
}

#[test]
fn erase_all_leaves_every_byte_erased() {
    let mut flash = ExternalFlash::new().init();
    flash.write_memory(0, &[0u8; 64]);
    flash.write_memory(0x7F_FF00, &[0u8; 64]);
    flash.erase_all();
    assert_eq!(flash.read_byte(0), 0xFF);
    assert_eq!(flash.read_byte(0x3F), 0xFF);
    assert_eq!(flash.read_byte(0x7F_FF3F), 0xFF);
}

#[test]
fn shutdown_powers_the_chip_down_and_keeps_the_array() {
    let mut flash = ExternalFlash::new().init();
    flash.write_memory(0x40, &[0xAB, 0xCD]);
    let chip = flash.shutdown();
    assert!(chip.powered_down);
    assert_eq!(chip.status1, 0);
    assert!(!chip.qpi_enabled);
    assert_eq!(chip.mem[0x40], 0xAB);
    assert_eq!(chip.mem[0x41], 0xCD);
}

#[test]
fn reset_clears_the_volatile_state() {
    let mut flash = ExternalFlash::new().init();
    assert!(flash.chip.qpi_enabled);
    flash.reset();
    assert_eq!(flash.chip.status1, 0);
    assert!(!flash.chip.qpi_enabled);
    assert!(!flash.chip.write_enabled);
}

#[test]
fn unlock_keeps_only_the_quad_enable_bit() {
    let mut flash = ExternalFlash::new().init();
    flash.unlock_flash();
    assert_eq!(flash.chip.status1, 0);
    assert_eq!(flash.chip.status2, QUAD_ENABLE);
}

#[test]
fn wait_completes_after_a_mutating_command() {
    let mut flash = ExternalFlash::new().init();
    flash.send_command(Command::WriteEnable);
    assert!(flash.wait().is_ok());
    flash.send_command(Command::ChipErase);
    assert!(flash.chip.busy_polls > 0);
    assert!(flash.wait().is_ok());
    assert_eq!(flash.chip.busy_polls, 0);
}

#[test]
fn the_encoder_programs_the_transaction_registers() {
    let mut flash = ExternalFlash::new().init();
    flash.send_command(Command::WriteEnable);
    assert_eq!(flash.regs.ccr.instruction, 0x06);
    assert_eq!(flash.regs.ccr.fmode, QspiMode::IndirectWrite);
    assert!(!flash.regs.busy);
    let data = flash.send_read_command(Command::ReadStatusRegister2, 0x80_0000, 1);
    assert_eq!(data.len(), 1);
    assert_eq!(flash.regs.ccr.instruction, 0x35);
    assert_eq!(flash.regs.dlr, 0);
    assert_eq!(flash.regs.ccr.fmode, QspiMode::IndirectRead);
}

#[test]
fn a_fast_read_transaction_pulls_the_array() {
    let mut flash = ExternalFlash::new().init();
    flash.write_memory(0x2000, &[0x11, 0x22]);
    let bytes = flash.send_command_full(
        QspiMode::IndirectRead,
        OperatingModes::Modes101,
        Command::FastRead,
        0x2000,
        0,
        0,
        8,
        None,
        2,
    );
    assert_eq!(bytes.as_slice(), &[0x11, 0x22]);
    assert_eq!(flash.regs.ccr.instruction, 0x0B);
    assert_eq!(flash.regs.ccr.dcyc, 8);
    assert_eq!(flash.regs.dlr, 1);
    assert_eq!(flash.regs.ar, 0x2000);
}
