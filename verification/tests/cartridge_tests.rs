use nes_core::cartridge::{Cartridge, Mirroring, RomError, CHR_BANK_SIZE, PRG_BANK_SIZE};

/// An iNES image: header, optional trainer, PRG banks whose every byte holds its
/// bank number, CHR banks whose bytes hold `0x80 + (offset / 0x1000)`.
fn ines(prg_banks: u8, chr_banks: u8, flags6: u8, flags7: u8) -> Vec<u8> {
    let mut v = vec![0x4E, 0x45, 0x53, 0x1A, prg_banks, chr_banks, flags6, flags7];
    v.extend_from_slice(&[0u8; 8]);
    if flags6 & 0x04 != 0 {
        v.extend_from_slice(&[0xEEu8; 512]);
    }
    for b in 0..prg_banks as usize {
        v.extend(std::iter::repeat(b as u8).take(PRG_BANK_SIZE));
    }
    for i in 0..chr_banks as usize * CHR_BANK_SIZE {
        v.push(0x80 + (i / 0x1000) as u8);
    }
    v
}

/// Feeds the five low bits of `value` to the MMC1 serial port at `addr`.
fn mmc1_load(c: &mut Cartridge, addr: u16, value: u8) {
    for i in 0..5 {
        c.write_prg(addr, (value >> i) & 1);
    }
}

#[test]
fn rejects_image_shorter_than_header() {
    let data = vec![0x4E, 0x45, 0x53, 0x1A, 1, 1];
    assert!(matches!(Cartridge::parse(&data), Err(RomError::TooShort)));
    match Cartridge::from_bytes(&data) {
        Err(s) => assert_eq!(s, "ROM inválida: menor que 16 bytes"),
        Ok(_) => panic!("short image accepted"),
    }
}

#[test]
fn rejects_bad_magic() {
    let mut data = ines(1, 1, 0, 0);
    data[3] = 0x1B;
    assert!(matches!(Cartridge::parse(&data), Err(RomError::BadMagic)));
    match Cartridge::from_bytes(&data) {
        Err(s) => assert_eq!(s, "Magic number inválido — não é uma ROM iNES válida"),
        Ok(_) => panic!("bad magic accepted"),
    }
}

#[test]
fn rejects_unsupported_mapper_with_its_number() {
    // Mapper 4: high nibble of byte 6 is 4.
    let data = ines(1, 1, 0x40, 0);
    assert!(matches!(Cartridge::parse(&data), Err(RomError::UnsupportedMapper(4))));
    match Cartridge::from_bytes(&data) {
        Err(s) => assert_eq!(
            s,
            "Mapper 4 não suportado — apenas Mapper 0 (NROM), Mapper 1 (MMC1) e Mapper 2 (UxROM) estão implementados"
        ),
        Ok(_) => panic!("mapper 4 accepted"),
    }
    // Mapper 0x15: both nibbles count.
    let data = ines(1, 1, 0x50, 0x10);
    assert!(matches!(Cartridge::parse(&data), Err(RomError::UnsupportedMapper(0x15))));
    match Cartridge::from_bytes(&data) {
        Err(s) => assert!(s.starts_with("Mapper 21 não suportado")),
        Ok(_) => panic!("mapper 21 accepted"),
    }
}

#[test]
fn rejects_truncated_image_with_sizes() {
    let mut data = ines(2, 1, 0, 0);
    data.truncate(100);
    let expected = 16 + 2 * PRG_BANK_SIZE + CHR_BANK_SIZE;
    assert_eq!(expected, 40976);
    match Cartridge::parse(&data) {
        Err(RomError::Truncated { expected: e, found }) => {
            assert_eq!(e, 40976);
            assert_eq!(found, 100);
        }
        _ => panic!("truncated image accepted"),
    }
    match Cartridge::from_bytes(&data) {
        Err(s) => assert_eq!(s, "ROM truncada: esperava 40976 bytes, encontrou 100"),
        Ok(_) => panic!("truncated image accepted"),
    }
    let msg = RomError::Truncated { expected: 7, found: 3 }.message();
    assert_eq!(msg, "ROM truncada: esperava 7 bytes, encontrou 3");
}

#[test]
fn loads_nrom_image() {
    let data = ines(2, 1, 0x01, 0);
    let c = Cartridge::from_bytes(&data).ok().unwrap();
    assert_eq!(c.mapper, 0);
    assert_eq!(c.prg_rom.len(), 2 * PRG_BANK_SIZE);
    assert_eq!(c.chr_rom.len(), CHR_BANK_SIZE);
    assert!(c.chr_ram.is_empty());
    assert_eq!(c.mirroring, Mirroring::Vertical);
    assert_eq!(c.mmc1_control, 0x0C);
    assert_eq!(c.mmc1_shift, 0);
    assert_eq!(c.mmc1_shift_count, 0);
    assert_eq!(c.uxrom_prg_bank, 0);
}

#[test]
fn header_selects_mirroring() {
    let h = Cartridge::from_bytes(&ines(1, 1, 0x00, 0)).ok().unwrap();
    assert_eq!(h.mirroring, Mirroring::Horizontal);
    let f = Cartridge::from_bytes(&ines(1, 1, 0x09, 0)).ok().unwrap();
    assert_eq!(f.mirroring, Mirroring::FourScreen);
}

#[test]
fn skips_trainer() {
    let data = ines(1, 1, 0x04, 0);
    assert_eq!(data.len(), 16 + 512 + PRG_BANK_SIZE + CHR_BANK_SIZE);
    let c = Cartridge::from_bytes(&data).ok().unwrap();
    assert_eq!(c.prg_rom.len(), PRG_BANK_SIZE);
    assert!(c.prg_rom.iter().all(|&b| b == 0));
    assert_eq!(c.chr_rom[0], 0x80);
}

#[test]
fn allocates_chr_ram_without_chr_rom() {
    let c = Cartridge::from_bytes(&ines(1, 0, 0x10, 0)).ok().unwrap();
    assert_eq!(c.mapper, 1);
    assert!(c.chr_rom.is_empty());
    assert_eq!(c.chr_ram.len(), CHR_BANK_SIZE);
    assert!(c.chr_ram.iter().all(|&b| b == 0));
}

#[test]
fn nrom_16k_is_mirrored() {
    let mut data = ines(1, 1, 0, 0);
    data[16 + 0x1234] = 0x42;
    let c = Cartridge::from_bytes(&data).ok().unwrap();
    assert_eq!(c.read_prg(0x1234), 0x42);
    assert_eq!(c.read_prg(0x5234), 0x42);
}

#[test]
fn empty_prg_reads_zero() {
    let c = Cartridge::from_bytes(&ines(0, 1, 0x10, 0)).ok().unwrap();
    assert_eq!(c.read_prg(0x0000), 0);
    assert_eq!(c.read_prg(0x7FFF), 0);
}

#[test]
fn mmc1_serial_load_commits_on_fifth_write() {
    let mut c = Cartridge::from_bytes(&ines(4, 0, 0x10, 0)).ok().unwrap();
    c.write_prg(0xE000, 1);
    c.write_prg(0xE000, 0);
    c.write_prg(0xE000, 0);
    c.write_prg(0xE000, 0);
    assert_eq!(c.mmc1_shift_count, 4);
    assert_eq!(c.mmc1_prg, 0);
    c.write_prg(0xE000, 0);
    assert_eq!(c.mmc1_prg, 1);
    assert_eq!(c.mmc1_shift, 0);
    assert_eq!(c.mmc1_shift_count, 0);
    // Only bit 0 of each write counts; the fifth address picks the register.
    c.write_prg(0x8000, 0x7E);
    c.write_prg(0x8000, 0x03);
    c.write_prg(0x8000, 0x02);
    c.write_prg(0x8000, 0x03);
    c.write_prg(0xA000, 0x01);
    assert_eq!(c.mmc1_chr0, 0b11010);
    assert_eq!(c.mmc1_control, 0x0C);
}

#[test]
fn mmc1_control_sets_mirroring() {
    let mut c = Cartridge::from_bytes(&ines(2, 0, 0x10, 0)).ok().unwrap();
    mmc1_load(&mut c, 0x8000, 0x00);
    assert_eq!(c.mirroring, Mirroring::SingleScreenLow);
    mmc1_load(&mut c, 0x9FFF, 0x01);
    assert_eq!(c.mirroring, Mirroring::SingleScreenHigh);
    mmc1_load(&mut c, 0x8000, 0x02);
    assert_eq!(c.mirroring, Mirroring::Vertical);
    mmc1_load(&mut c, 0x8000, 0x1F);
    assert_eq!(c.mirroring, Mirroring::Horizontal);
    assert_eq!(c.mmc1_control, 0x1F);
}

#[test]
fn mmc1_reset_bit_clears_shift_and_forces_mode_3() {
    let mut c = Cartridge::from_bytes(&ines(2, 0, 0x10, 0)).ok().unwrap();
    mmc1_load(&mut c, 0x8000, 0x00);
    c.write_prg(0x8000, 1);
    c.write_prg(0x8000, 1);
    c.write_prg(0x8000, 0x80);
    assert_eq!(c.mmc1_shift, 0);
    assert_eq!(c.mmc1_shift_count, 0);
    assert_eq!(c.mmc1_control, 0x0C);
}

#[test]
fn mmc1_prg_banking_modes() {
    let mut c = Cartridge::from_bytes(&ines(4, 0, 0x10, 0)).ok().unwrap();
    // Mode 3 at power-on: $8000 switchable (bank 0), $C000 fixed to the last bank.
    assert_eq!(c.read_prg(0x0000), 0);
    assert_eq!(c.read_prg(0x4000), 3);
    mmc1_load(&mut c, 0xE000, 2);
    assert_eq!(c.read_prg(0x0000), 2);
    assert_eq!(c.read_prg(0x7FFF), 3);
    // Mode 2: $8000 fixed to bank 0, $C000 switchable.
    mmc1_load(&mut c, 0x8000, 0x08);
    assert_eq!(c.read_prg(0x0000), 0);
    assert_eq!(c.read_prg(0x4000), 2);
    // Mode 0: 32 KiB, bit 0 of the bank number ignored.
    mmc1_load(&mut c, 0x8000, 0x00);
    mmc1_load(&mut c, 0xE000, 3);
    assert_eq!(c.read_prg(0x0000), 2);
    assert_eq!(c.read_prg(0x4000), 3);
    // Bank numbers wrap around the bank count; the PRG register keeps four bits.
    mmc1_load(&mut c, 0x8000, 0x0C);
    mmc1_load(&mut c, 0xE000, 0x1D);
    assert_eq!(c.mmc1_prg, 0x0D);
    assert_eq!(c.read_prg(0x0000), 1);
}

#[test]
fn uxrom_switches_low_window() {
    let mut c = Cartridge::from_bytes(&ines(8, 0, 0x20, 0)).ok().unwrap();
    assert_eq!(c.mapper, 2);
    c.write_prg(0x8000, 5);
    assert_eq!(c.uxrom_prg_bank, 5);
    assert_eq!(c.read_prg(0x0000), 5);
    assert_eq!(c.read_prg(0x3FFF), 5);
    assert_eq!(c.read_prg(0x4000), 7);
    c.write_prg(0xFFFF, 0x0B);
    assert_eq!(c.read_prg(0x0010), 3);
    assert_eq!(c.read_prg(0x7FFF), 7);
}

#[test]
fn chr_ram_reads_back_writes() {
    let mut c = Cartridge::from_bytes(&ines(1, 0, 0, 0)).ok().unwrap();
    c.write_chr(0x0123, 0x5A);
    assert_eq!(c.read_chr(0x0123), 0x5A);
    // Addresses fold onto 8 KiB.
    c.write_chr(0x3FFF, 0x77);
    assert_eq!(c.read_chr(0x1FFF), 0x77);
    assert_eq!(c.read_chr(0x0124), 0);
}

#[test]
fn chr_rom_ignores_writes() {
    let mut c = Cartridge::from_bytes(&ines(1, 1, 0, 0)).ok().unwrap();
    assert_eq!(c.read_chr(0x0010), 0x80);
    assert_eq!(c.read_chr(0x1010), 0x81);
    c.write_chr(0x0010, 0x00);
    assert_eq!(c.read_chr(0x0010), 0x80);
    assert!(c.chr_ram.is_empty());
}

#[test]
fn mmc1_chr_banking() {
    // Four 8 KiB CHR banks: eight 4 KiB pieces holding 0x80..0x87.
    let mut c = Cartridge::from_bytes(&ines(2, 4, 0x10, 0)).ok().unwrap();
    // 8 KiB mode (control bit 4 clear): bit 0 of the bank ignored, banks of 8 KiB.
    mmc1_load(&mut c, 0xA000, 3);
    assert_eq!(c.read_chr(0x0000), 0x84);
    assert_eq!(c.read_chr(0x1000), 0x85);
    // 4 KiB mode: independent halves.
    mmc1_load(&mut c, 0x8000, 0x1C);
    mmc1_load(&mut c, 0xC000, 1);
    assert_eq!(c.read_chr(0x0000), 0x83);
    assert_eq!(c.read_chr(0x1000), 0x81);
}
