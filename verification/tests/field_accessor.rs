use gic_core::bank::RegBank;

#[test]
fn fresh_bank_reads_zero() {
    let bank = RegBank::new(64);
    assert_eq!(bank.len(), 64);
    assert_eq!(bank.read32(0), 0);
    assert_eq!(bank.read32(63), 0);
    assert_eq!(bank.read_field(0, 1, 100), 0);
    assert_eq!(bank.read_field(16, 8, 7), 0);
}

#[test]
fn whole_register_round_trip() {
    let mut bank = RegBank::new(8);
    bank.write32(3, 0xDEAD_BEEF);
    assert_eq!(bank.read32(3), 0xDEAD_BEEF);
    assert_eq!(bank.read32(2), 0);
    assert_eq!(bank.read32(4), 0);
}

#[test]
fn field_write_reads_back_mod_width() {
    let mut bank = RegBank::new(64);
    // An 8-bit field keeps only the low 8 bits of the written value.
    bank.write_field(0, 8, 5, 0x1FF);
    assert_eq!(bank.read_field(0, 8, 5), 0xFF);
    // A 2-bit field keeps only the low 2 bits.
    bank.write_field(32, 2, 9, 0x7);
    assert_eq!(bank.read_field(32, 2, 9), 0x3);
    // A 1-bit field keeps only the low bit.
    bank.write_field(16, 1, 40, 3);
    assert_eq!(bank.read_field(16, 1, 40), 1);
}

#[test]
fn field_write_targets_expected_register() {
    let mut bank = RegBank::new(64);
    // Entry 5 of an 8-bit-field window sits in register base + 5/4 = base + 1,
    // at bit offset (5 % 4) * 8 = 8.
    bank.write_field(0, 8, 5, 0xAB);
    assert_eq!(bank.read32(1), 0xAB00);
    // Entry 40 of a 1-bit window sits in register base + 1, bit 8.
    bank.write_field(16, 1, 40, 1);
    assert_eq!(bank.read32(17), 0x100);
}

#[test]
fn same_register_fields_are_independent() {
    let mut bank = RegBank::new(64);
    // Indices 4..8 of an 8-bit window share the register at base + 1.
    bank.write_field(0, 8, 4, 0xAA);
    bank.write_field(0, 8, 5, 0xBB);
    bank.write_field(0, 8, 6, 0xCC);
    bank.write_field(0, 8, 7, 0xDD);
    assert_eq!(bank.read_field(0, 8, 4), 0xAA);
    assert_eq!(bank.read_field(0, 8, 5), 0xBB);
    assert_eq!(bank.read_field(0, 8, 6), 0xCC);
    assert_eq!(bank.read_field(0, 8, 7), 0xDD);
    // Overwriting one leaves its register-mates alone.
    bank.write_field(0, 8, 5, 0x11);
    assert_eq!(bank.read_field(0, 8, 4), 0xAA);
    assert_eq!(bank.read_field(0, 8, 5), 0x11);
    assert_eq!(bank.read_field(0, 8, 6), 0xCC);
    assert_eq!(bank.read_field(0, 8, 7), 0xDD);
}

#[test]
fn other_registers_unchanged_by_field_write() {
    let mut bank = RegBank::new(64);
    bank.write32(0, 0x1234_5678);
    bank.write32(2, 0x9ABC_DEF0);
    bank.write_field(0, 8, 5, 0xEE);
    assert_eq!(bank.read32(0), 0x1234_5678);
    assert_eq!(bank.read32(2), 0x9ABC_DEF0);
}

#[test]
fn sixteen_bit_fields() {
    let mut bank = RegBank::new(8);
    bank.write_field(0, 16, 1, 0xBEEF);
    bank.write_field(0, 16, 0, 0xCAFE);
    assert_eq!(bank.read_field(0, 16, 0), 0xCAFE);
    assert_eq!(bank.read_field(0, 16, 1), 0xBEEF);
    assert_eq!(bank.read32(0), 0xBEEF_CAFE);
}
