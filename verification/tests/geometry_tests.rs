use rustworks::geometry::sector_at_address;

const BASE: u32 = 0x9000_0000;

#[test]
fn sector_of_first_4k_block() {
    assert_eq!(sector_at_address(BASE), 0);
}

#[test]
fn sector_of_32k_block() {
    // 0x8000 is the 32 KiB offset: the single 32 KiB block.
    assert_eq!(sector_at_address(BASE + 0x8000), 8);
}

#[test]
fn sector_of_first_64k_block() {
    assert_eq!(sector_at_address(BASE + 0x1_0000), 9);
}

#[test]
fn sector_of_4k_interior() {
    assert_eq!(sector_at_address(BASE + 0x0FFF), 0);
    assert_eq!(sector_at_address(BASE + 0x1000), 1);
    assert_eq!(sector_at_address(BASE + 0x7FFF), 7);
}

#[test]
fn sector_of_32k_interior() {
    assert_eq!(sector_at_address(BASE + 0x8001), 8);
    assert_eq!(sector_at_address(BASE + 0xFFFF), 8);
}

#[test]
fn sector_of_last_byte() {
    assert_eq!(sector_at_address(BASE + 0x7F_FFFF), 135);
}

#[test]
fn sector_of_64k_boundaries() {
    assert_eq!(sector_at_address(BASE + 0x2_0000), 10);
    assert_eq!(sector_at_address(BASE + 0x2_FFFF), 10);
    assert_eq!(sector_at_address(BASE + 0x7F_0000), 135);
}

#[test]
fn sector_of_is_monotonic_on_samples() {
    let mut last = 0u8;
    let mut address = BASE;
    while address < BASE + 0x80_0000 {
        let s = sector_at_address(address);
        assert!(s >= last);
        assert!(s < 136);
        last = s;
        address += 0x0800;
    }
    assert_eq!(last, 135);
}
