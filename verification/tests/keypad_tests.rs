use rustworks::keypad::{col_to_key, switch_from_code, Key, Switch};

#[test]
fn plain_layout_maps_the_navigation_cluster() {
    assert_eq!(Switch::R0C1.to_key(), Key::Left);
    assert_eq!(Switch::R0C5.to_key(), Key::Okay);
    assert_eq!(Switch::R1C3.to_key(), Key::Power);
    assert_eq!(Switch::R8C5.to_key(), Key::EXE);
    assert_eq!(Switch::NONE.to_key(), Key::NONE);
}

#[test]
fn shift_layout_overrides_and_falls_back() {
    assert_eq!(Switch::R2C2.to_key_shift(), Key::AlphaLock);
    assert_eq!(Switch::R4C4.to_key_shift(), Key::Equals);
    // Switches without a shifted assignment keep their plain key.
    assert_eq!(Switch::R0C1.to_key_shift(), Key::Left);
    assert_eq!(Switch::R8C5.to_key_shift(), Key::EXE);
}

#[test]
fn alpha_layout_overrides_and_falls_back() {
    assert_eq!(Switch::R3C1.to_key_alpha(false), Key::A);
    assert_eq!(Switch::R7C4.to_key_alpha(false), Key::Z);
    assert_eq!(Switch::R8C2.to_key_alpha(true), Key::Exclamation);
    // Without an alpha assignment, shift decides the fallback layout.
    assert_eq!(Switch::R2C2.to_key_alpha(true), Key::AlphaLock);
    assert_eq!(Switch::R2C2.to_key_alpha(false), Key::Alpha);
}

#[test]
fn switch_codes_decode_per_row_and_column() {
    assert_eq!(switch_from_code(0x01), Some(Switch::R0C1));
    assert_eq!(switch_from_code(0x13), Some(Switch::R1C3));
    assert_eq!(switch_from_code(0x85), Some(Switch::R8C5));
    assert_eq!(switch_from_code(0xFF), Some(Switch::NONE));
    // Codes without a switch: a column the row lacks, and a column past the
    // matrix.
    assert_eq!(switch_from_code(0x12), None);
    assert_eq!(switch_from_code(0x56), None);
}

#[test]
fn scanned_columns_decode_to_switches() {
    // Row 0, column 2 pressed.
    assert_eq!(col_to_key(0x00, 0b000010, 2), Some(Switch::R0C2));
    // Row 1 has only columns 1 and 3.
    assert_eq!(col_to_key(0x10, 0b000100, 4), Some(Switch::R1C3));
    assert_eq!(col_to_key(0x10, 0b000010, 2), None);
    // The column's bit must be set in the row state.
    assert_eq!(col_to_key(0x00, 0b000000, 2), None);
    // Not a single-column mask.
    assert_eq!(col_to_key(0x00, 0b111111, 3), None);
}
