use rustworks::buffer::buffer_len;
use rustworks::dfu::{mem_info_string, DfuError, ManifestAction, QspiDfu};
use rustworks::external_flash::ExternalFlash;

const BASE: u32 = 0x9000_0000;

fn fresh_dfu() -> QspiDfu {
    QspiDfu::new(ExternalFlash::new().init())
}

/// First offset of each sector, mirroring the chip's erase-unit layout.
fn start_of_sector(s: u32) -> u32 {
    if s < 8 {
        s * 0x1000
    } else if s == 8 {
        0x8000
    } else {
        (s - 8) * 0x1_0000
    }
}

fn size_of_sector(s: u32) -> u32 {
    if s < 8 {
        0x1000
    } else if s == 8 {
        0x8000
    } else {
        0x1_0000
    }
}

#[test]
fn store_then_program_then_read_back() {
    let mut dfu = fresh_dfu();
    let data = [10u8, 20, 30, 40, 50, 60, 70, 80];
    assert_eq!(dfu.store_write_buffer(&data), Ok(()));
    assert_eq!(dfu.program(BASE + 0x4000, data.len()), Ok(()));
    let back = dfu.read(BASE + 0x4000, data.len()).unwrap();
    assert_eq!(back.as_slice(), data.as_slice());
}

#[test]
fn oversized_transfer_is_rejected_and_buffer_kept() {
    let mut dfu = fresh_dfu();
    assert_eq!(dfu.store_write_buffer(&[1, 2, 3]), Ok(()));
    let oversized = [0u8; 1025];
    assert!(dfu.store_write_buffer(&oversized).is_err());
    // The previous contents survive the rejected transfer.
    assert_eq!(buffer_len(&dfu.buffer), 3);
    assert_eq!(dfu.program(BASE, 3), Ok(()));
    let back = dfu.read(BASE, 3).unwrap();
    assert_eq!(back.as_slice(), &[1, 2, 3]);
}

#[test]
fn a_new_transfer_replaces_the_stored_one() {
    let mut dfu = fresh_dfu();
    assert_eq!(dfu.store_write_buffer(&[1, 2, 3]), Ok(()));
    assert_eq!(dfu.store_write_buffer(&[4, 5]), Ok(()));
    assert_eq!(buffer_len(&dfu.buffer), 2);
    assert_eq!(dfu.program(BASE, 2), Ok(()));
    let back = dfu.read(BASE, 3).unwrap();
    assert_eq!(back.as_slice(), &[4, 5, 0xFF]);
}

#[test]
fn a_full_transfer_unit_fits() {
    let mut dfu = fresh_dfu();
    let data = [0x42u8; 1024];
    assert_eq!(dfu.store_write_buffer(&data), Ok(()));
    assert_eq!(buffer_len(&dfu.buffer), 1024);
}

#[test]
fn program_more_than_stored_is_rejected() {
    let mut dfu = fresh_dfu();
    assert_eq!(dfu.store_write_buffer(&[1, 2, 3, 4]), Ok(()));
    assert_eq!(dfu.program(BASE, 8), Err(DfuError::Oversized));
    // Nothing was programmed.
    let back = dfu.read(BASE, 8).unwrap();
    assert_eq!(back.as_slice(), &[0xFF; 8]);
}

#[test]
fn requests_outside_the_window_are_rejected() {
    let mut dfu = fresh_dfu();
    assert_eq!(dfu.read(0x1000, 4).unwrap_err(), DfuError::OutOfRange);
    assert_eq!(dfu.erase(0x1000), Err(DfuError::OutOfRange));
    assert_eq!(dfu.erase(BASE + 0x80_0000), Err(DfuError::OutOfRange));
    assert_eq!(dfu.store_write_buffer(&[1]), Ok(()));
    assert_eq!(dfu.program(BASE + 0x80_0000, 1), Err(DfuError::OutOfRange));
    assert_eq!(dfu.read(BASE + 0x7F_FFFF, 2).unwrap_err(), DfuError::OutOfRange);
}

#[test]
fn erase_clears_exactly_the_owning_sector() {
    let mut dfu = fresh_dfu();
    // Two bytes at the end of sector 0, two at the start of sector 1.
    assert_eq!(dfu.store_write_buffer(&[9, 9, 9, 9]), Ok(()));
    assert_eq!(dfu.program(BASE + 0x0FFE, 4), Ok(()));
    assert_eq!(dfu.erase(BASE + 0x0800), Ok(()));
    let back = dfu.read(BASE + 0x0FFE, 4).unwrap();
    assert_eq!(back.as_slice(), &[0xFF, 0xFF, 9, 9]);
}

#[test]
fn erase_all_reads_erased_at_every_sector_edge() {
    let mut dfu = fresh_dfu();
    assert_eq!(dfu.store_write_buffer(&[0u8; 4]), Ok(()));
    assert_eq!(dfu.program(BASE, 4), Ok(()));
    assert_eq!(dfu.erase_all(), Ok(()));
    for s in 0..136u32 {
        let first = BASE + start_of_sector(s);
        let last = first + size_of_sector(s) - 1;
        assert_eq!(dfu.read(first, 1).unwrap().as_slice(), &[0xFF]);
        assert_eq!(dfu.read(last, 1).unwrap().as_slice(), &[0xFF]);
    }
}

#[test]
fn dfu_program_splits_at_page_boundaries() {
    let mut dfu = fresh_dfu();
    let data = [3u8; 300];
    assert_eq!(dfu.store_write_buffer(&data), Ok(()));
    assert_eq!(dfu.program(BASE + 200, 300), Ok(()));
    assert_eq!(dfu.flash.chip.page_programs.len(), 2);
    assert_eq!(dfu.flash.chip.page_programs[0].offset, 200);
    assert_eq!(dfu.flash.chip.page_programs[0].length, 56);
    assert_eq!(dfu.flash.chip.page_programs[1].offset, 256);
    assert_eq!(dfu.flash.chip.page_programs[1].length, 244);
}

#[test]
fn manifestation_follows_the_configured_policy() {
    let mut dfu = fresh_dfu();
    assert_eq!(dfu.manifestation(), ManifestAction::WaitForReset);
    dfu.set_manifestation_tolerant(true);
    assert_eq!(dfu.manifestation(), ManifestAction::SystemReset);
}

#[test]
fn the_layout_descriptor_lists_the_three_granularities() {
    assert_eq!(
        mem_info_string(),
        "@ExternalFlash/0x90000000/08*004Kg,01*032Kg,63*064Kg,64*064Kg"
    );
}
