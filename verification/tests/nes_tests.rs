use nes_core::cartridge::Mirroring;
use nes_core::Nes;

const RESET: u16 = 0x8000;
const NMI_HANDLER: u16 = 0x8100;
const IRQ_HANDLER: u16 = 0x9000;

/// An NROM image with one 16 KiB PRG bank (seen at $8000 and $C000) holding
/// `code` at `$8000 + offset` for each `(offset, code)`, and the three vectors.
fn rom(pieces: &[(usize, &[u8])]) -> Vec<u8> {
    let mut prg = vec![0xEAu8; 0x4000];
    for (offset, code) in pieces {
        prg[*offset..*offset + code.len()].copy_from_slice(code);
    }
    for (at, v) in [(0x3FFA, NMI_HANDLER), (0x3FFC, RESET), (0x3FFE, IRQ_HANDLER)] {
        prg[at] = v as u8;
        prg[at + 1] = (v >> 8) as u8;
    }
    let mut data = vec![0x4E, 0x45, 0x53, 0x1A, 1, 1, 0x01, 0];
    data.extend_from_slice(&[0u8; 8]);
    data.extend_from_slice(&prg);
    data.extend(std::iter::repeat(0x11u8).take(0x2000));
    data
}

fn console(pieces: &[(usize, &[u8])]) -> Nes {
    let mut nes = Nes::new();
    assert!(nes.load_rom_bytes(&rom(pieces)).is_ok());
    nes
}

#[test]
fn power_on_registers() {
    let nes = Nes::new();
    assert_eq!(nes.get_pc(), 0);
    assert_eq!(nes.get_a(), 0);
    assert_eq!(nes.get_x(), 0);
    assert_eq!(nes.get_y(), 0);
    assert_eq!(nes.get_sp(), 0xFD);
    assert_eq!(nes.get_status(), 0x24);
    assert_eq!(nes.get_cycles(), 0);
    assert_eq!(nes.get_framebuffer().len(), 256 * 240 * 3);
}

#[test]
fn load_rom_resets_through_vector() {
    let nes = console(&[]);
    assert_eq!(nes.get_pc(), RESET);
    assert_eq!(nes.get_sp(), 0xFD);
    assert_eq!(nes.get_status(), 0x24);
    assert_eq!(nes.get_cycles(), 8);
    assert_eq!(nes.bus.ppu.chr_rom.len(), 0x2000);
    assert_eq!(nes.bus.ppu.chr_rom[5], 0x11);
    assert_eq!(nes.bus.ppu.mirroring, Mirroring::Vertical);
    assert!(nes.bus.cartridge.is_some());
}

#[test]
fn refused_rom_leaves_console_alone() {
    let mut nes = Nes::new();
    nes.set_pc(0x1234);
    let mut data = rom(&[]);
    data.truncate(20);
    match nes.load_rom_bytes(&data) {
        Err(s) => assert_eq!(s, "ROM truncada: esperava 24592 bytes, encontrou 20"),
        Ok(()) => panic!("truncated image loaded"),
    }
    assert_eq!(nes.get_pc(), 0x1234);
    assert_eq!(nes.get_cycles(), 0);
    assert!(nes.bus.cartridge.is_none());
    assert!(nes.bus.ppu.chr_rom.is_empty());
}

#[test]
fn reset_reloads_registers() {
    let mut nes = console(&[(0, &[0xA9, 0x33, 0xAA])]);
    nes.step();
    nes.step();
    assert_eq!(nes.get_x(), 0x33);
    nes.reset();
    assert_eq!(nes.get_pc(), RESET);
    assert_eq!(nes.get_a(), 0);
    assert_eq!(nes.get_x(), 0);
    assert_eq!(nes.get_cycles(), 8 + 2 + 2 + 8);
}

#[test]
fn adc_sets_overflow_and_negative() {
    // LDA #$50; ADC #$50
    let mut nes = console(&[(0, &[0xA9, 0x50, 0x69, 0x50])]);
    assert_eq!(nes.step(), 2);
    assert_eq!(nes.step(), 2);
    assert_eq!(nes.get_a(), 0xA0);
    assert_eq!(nes.get_status(), 0x24 | 0x80 | 0x40);
    assert_eq!(nes.get_cycles(), 12);
}

#[test]
fn adc_carries_into_zero() {
    // LDA #$FF; ADC #$01
    let mut nes = console(&[(0, &[0xA9, 0xFF, 0x69, 0x01])]);
    nes.step();
    nes.step();
    assert_eq!(nes.get_a(), 0x00);
    assert_eq!(nes.get_status(), 0x24 | 0x02 | 0x01);
}

#[test]
fn sbc_subtracts_with_borrow() {
    // SEC; LDA #$50; SBC #$F0; SEC; LDA #$50; SBC #$30
    let mut nes = console(&[(0, &[0x38, 0xA9, 0x50, 0xE9, 0xF0, 0x38, 0xA9, 0x50, 0xE9, 0x30])]);
    for _ in 0..3 {
        nes.step();
    }
    assert_eq!(nes.get_a(), 0x60);
    assert_eq!(nes.get_status() & 0x01, 0);
    assert_eq!(nes.get_status() & 0x40, 0);
    for _ in 0..3 {
        nes.step();
    }
    assert_eq!(nes.get_a(), 0x20);
    assert_eq!(nes.get_status() & 0x01, 0x01);
    // CLC; LDA #$00; SBC #$00 borrows one more.
    let mut nes = console(&[(0, &[0x18, 0xA9, 0x00, 0xE9, 0x00])]);
    for _ in 0..3 {
        nes.step();
    }
    assert_eq!(nes.get_a(), 0xFF);
    assert_eq!(nes.get_status(), 0x24 | 0x80);
}

#[test]
fn compare_sets_carry_zero_negative() {
    // LDA #$40; CMP #$40; CMP #$41; CMP #$3F
    let mut nes = console(&[(0, &[0xA9, 0x40, 0xC9, 0x40, 0xC9, 0x41, 0xC9, 0x3F])]);
    nes.step();
    nes.step();
    assert_eq!(nes.get_status() & 0x83, 0x03);
    nes.step();
    assert_eq!(nes.get_status() & 0x83, 0x80);
    nes.step();
    assert_eq!(nes.get_status() & 0x83, 0x01);
}

#[test]
fn jsr_then_rts_returns_after_call() {
    // $8000: JSR $8010; $8003: NOP. $8010: RTS.
    let mut nes = console(&[(0, &[0x20, 0x10, 0x80]), (0x10, &[0x60])]);
    assert_eq!(nes.step(), 6);
    assert_eq!(nes.get_pc(), 0x8010);
    assert_eq!(nes.get_sp(), 0xFB);
    assert_eq!(nes.mem_read(0x01FD), 0x80);
    assert_eq!(nes.mem_read(0x01FC), 0x02);
    assert_eq!(nes.step(), 6);
    assert_eq!(nes.get_pc(), 0x8003);
    assert_eq!(nes.get_sp(), 0xFD);
}

#[test]
fn push_then_pull_accumulator() {
    // LDA #$37; PHA; LDA #$00; PLA
    let mut nes = console(&[(0, &[0xA9, 0x37, 0x48, 0xA9, 0x00, 0x68])]);
    nes.step();
    assert_eq!(nes.step(), 3);
    assert_eq!(nes.get_sp(), 0xFC);
    nes.step();
    assert_eq!(nes.get_status() & 0x02, 0x02);
    assert_eq!(nes.step(), 4);
    assert_eq!(nes.get_a(), 0x37);
    assert_eq!(nes.get_sp(), 0xFD);
    assert_eq!(nes.get_status() & 0x02, 0);
}

#[test]
fn php_sets_break_only_in_pushed_copy() {
    // PHP; PLP
    let mut nes = console(&[(0, &[0x08, 0x28])]);
    nes.step();
    assert_eq!(nes.mem_read(0x01FD), 0x34);
    nes.step();
    assert_eq!(nes.get_status(), 0x24);
}

#[test]
fn brk_pushes_state_and_jumps_to_irq_vector() {
    let mut nes = console(&[(0, &[0x00])]);
    assert_eq!(nes.step(), 7);
    assert_eq!(nes.get_pc(), IRQ_HANDLER);
    assert_eq!(nes.get_sp(), 0xFA);
    assert_eq!(nes.mem_read(0x01FD), 0x80);
    assert_eq!(nes.mem_read(0x01FC), 0x02);
    assert_eq!(nes.mem_read(0x01FB), 0x34);
    assert_eq!(nes.get_status() & 0x14, 0x04);
}

#[test]
fn branch_cycles() {
    // LDA #$01; BNE +2; NOP; NOP; LDA #$05
    let mut nes = console(&[(0, &[0xA9, 0x01, 0xD0, 0x02, 0xEA, 0xEA, 0xA9, 0x05])]);
    nes.step();
    assert_eq!(nes.step(), 3);
    assert_eq!(nes.get_pc(), 0x8006);
    nes.step();
    assert_eq!(nes.get_a(), 0x05);
    // Not taken: 2 cycles. LDA #$00; BNE +2
    let mut nes = console(&[(0, &[0xA9, 0x00, 0xD0, 0x02])]);
    nes.step();
    assert_eq!(nes.step(), 2);
    assert_eq!(nes.get_pc(), 0x8004);
    // Taken across a page: 4 cycles. LDA #$01; JMP $80FB; $80FB: BNE +5
    let mut nes = console(&[(0, &[0xA9, 0x01, 0x4C, 0xFB, 0x80]), (0xFB, &[0xD0, 0x05])]);
    nes.step();
    assert_eq!(nes.step(), 3);
    assert_eq!(nes.step(), 4);
    assert_eq!(nes.get_pc(), 0x8102);
    // Backwards: BNE -4 from $8004 lands on $8002.
    let mut nes = console(&[(0, &[0xA9, 0x01, 0xEA, 0xEA, 0xD0, 0xFC])]);
    for _ in 0..3 {
        nes.step();
    }
    nes.step();
    assert_eq!(nes.get_pc(), 0x8002);
}

#[test]
fn jmp_indirect_wraps_within_page() {
    let mut nes = console(&[(0, &[0x6C, 0xFF, 0x02])]);
    nes.mem_write(0x02FF, 0x34);
    nes.mem_write(0x0200, 0x12);
    nes.mem_write(0x0300, 0x56);
    assert_eq!(nes.step(), 5);
    assert_eq!(nes.get_pc(), 0x1234);
}

#[test]
fn indexed_indirect_and_indirect_indexed() {
    // LDX #$04; LDA ($10,X) -> pointer at $14; LDY #$10; LDA ($20),Y
    let mut nes = console(&[(0, &[0xA2, 0x04, 0xA1, 0x10, 0xA0, 0x10, 0xB1, 0x20])]);
    nes.mem_write(0x0014, 0x00);
    nes.mem_write(0x0015, 0x03);
    nes.mem_write(0x0300, 0x99);
    nes.mem_write(0x0020, 0xF8);
    nes.mem_write(0x0021, 0x03);
    nes.mem_write(0x0408, 0x77);
    nes.step();
    assert_eq!(nes.step(), 6);
    assert_eq!(nes.get_a(), 0x99);
    nes.step();
    // $03F8 + $10 crosses into page 4: one extra cycle.
    assert_eq!(nes.step(), 6);
    assert_eq!(nes.get_a(), 0x77);
}

#[test]
fn shifts_and_rotates_memory() {
    // SEC; ROL $10; LSR $11; ASL $12; ROR $13
    let mut nes = console(&[(0, &[0x38, 0x26, 0x10, 0x46, 0x11, 0x06, 0x12, 0x66, 0x13])]);
    nes.mem_write(0x10, 0x80);
    nes.mem_write(0x11, 0x01);
    nes.mem_write(0x12, 0x40);
    nes.mem_write(0x13, 0x02);
    nes.step();
    assert_eq!(nes.step(), 5);
    assert_eq!(nes.mem_read(0x10), 0x01);
    assert_eq!(nes.get_status() & 0x01, 0x01);
    nes.step();
    assert_eq!(nes.mem_read(0x11), 0x00);
    assert_eq!(nes.get_status() & 0x03, 0x03);
    nes.step();
    assert_eq!(nes.mem_read(0x12), 0x80);
    assert_eq!(nes.get_status() & 0x81, 0x80);
    nes.step();
    assert_eq!(nes.mem_read(0x13), 0x01);
    assert_eq!(nes.get_status() & 0x01, 0x00);
}

#[test]
fn illegal_lax_and_dcp() {
    // LAX $10; DCP $11 (DEC then CMP with A)
    let mut nes = console(&[(0, &[0xA7, 0x10, 0xC7, 0x11])]);
    nes.mem_write(0x10, 0x42);
    nes.mem_write(0x11, 0x43);
    assert_eq!(nes.step(), 3);
    assert_eq!(nes.get_a(), 0x42);
    assert_eq!(nes.get_x(), 0x42);
    assert_eq!(nes.step(), 5);
    assert_eq!(nes.mem_read(0x11), 0x42);
    assert_eq!(nes.get_status() & 0x03, 0x03);
}

#[test]
fn ram_is_mirrored_every_2k() {
    let mut nes = Nes::new();
    nes.mem_write(0x0001, 0xAB);
    assert_eq!(nes.mem_read(0x0801), 0xAB);
    assert_eq!(nes.mem_read(0x1001), 0xAB);
    nes.mem_write(0x1FFF, 0xCD);
    assert_eq!(nes.mem_read(0x07FF), 0xCD);
    assert_eq!(nes.mem_read(0x0001), 0xAB);
}

#[test]
fn unmapped_space_reads_zero_and_nrom_ignores_writes() {
    let mut nes = console(&[]);
    assert_eq!(nes.mem_read(0x4015), 0);
    assert_eq!(nes.mem_read(0x4017), 0);
    nes.mem_write(0x6000, 0x12);
    assert_eq!(nes.mem_read(0x6000), 0);
    nes.mem_write(0x8000, 0x12);
    assert_eq!(nes.mem_read(0x8000), 0xEA);
    assert_eq!(Nes::new().mem_read(0xFFFC), 0);
}

#[test]
fn controller_serial_protocol() {
    let mut nes = console(&[]);
    // A, Select, Down and Right held.
    nes.set_input(0b1010_0101);
    nes.mem_write(0x4016, 1);
    // While the strobe is set every read reports A.
    assert_eq!(nes.mem_read(0x4016), 1);
    assert_eq!(nes.mem_read(0x4016), 1);
    nes.mem_write(0x4016, 0);
    let bits: Vec<u8> = (0..8).map(|_| nes.mem_read(0x4016)).collect();
    assert_eq!(bits, vec![1, 0, 1, 0, 0, 1, 0, 1]);
    // Past the eighth read the register is empty.
    assert_eq!(nes.mem_read(0x4016), 0);
    // Latching again starts over.
    nes.set_input(0b0100_0000);
    nes.mem_write(0x4016, 1);
    nes.mem_write(0x4016, 0);
    assert_eq!(nes.mem_read(0x4016), 0);
    assert_eq!(nes.mem_read(0x4016), 1);
}

#[test]
fn oam_dma_copies_a_ram_page() {
    let mut nes = console(&[]);
    for i in 0..256u16 {
        nes.mem_write(0x0200 + i, (i as u8) ^ 0x5A);
    }
    nes.mem_write(0x4014, 0x02);
    for i in 0..256usize {
        assert_eq!(nes.bus.ppu.oam[i], (i as u8) ^ 0x5A);
    }
    // Pages above $07FF mirror RAM.
    nes.mem_write(0x0A00, 0x77);
    nes.mem_write(0x4014, 0x12);
    assert_eq!(nes.bus.ppu.oam[0], 0x77);
}

#[test]
fn cpu_writes_reach_the_apu() {
    let mut nes = console(&[]);
    nes.mem_write(0x4015, 0x01);
    nes.mem_write(0x4000, 0xBF);
    nes.mem_write(0x4002, 0x10);
    nes.mem_write(0x4003, 0x00);
    assert!(nes.bus.apu.pulse1.enabled);
    assert_eq!(nes.bus.apu.pulse1.length, 10);
    assert_eq!(nes.bus.apu.pulse1.timer_period, 16);
    nes.mem_write(0x4017, 0x80);
    assert!(nes.bus.apu.frame_mode);
}

/// An MMC1 image with four PRG banks (each byte its bank number) and CHR-RAM.
fn mmc1_rom() -> Vec<u8> {
    let mut data = vec![0x4E, 0x45, 0x53, 0x1A, 4, 0, 0x10, 0];
    data.extend_from_slice(&[0u8; 8]);
    for bank in 0..4u8 {
        let mut prg = vec![bank; 0x4000];
        if bank == 3 {
            prg[0x3FFC] = 0x00;
            prg[0x3FFD] = 0x80;
        }
        data.extend_from_slice(&prg);
    }
    data
}

fn mmc1_write(nes: &mut Nes, addr: u16, value: u8) {
    for i in 0..5 {
        nes.mem_write(addr, (value >> i) & 1);
    }
}

#[test]
fn cpu_writes_switch_mmc1_banks_and_mirroring() {
    let mut nes = Nes::new();
    assert!(nes.load_rom_bytes(&mmc1_rom()).is_ok());
    assert_eq!(nes.mem_read(0x8000), 0);
    assert_eq!(nes.mem_read(0xC000), 3);
    mmc1_write(&mut nes, 0xE000, 2);
    assert_eq!(nes.mem_read(0x8000), 2);
    mmc1_write(&mut nes, 0x8000, 0x1E);
    assert_eq!(nes.bus.ppu.mirroring, Mirroring::Vertical);
    assert_eq!(nes.bus.ppu.chr_control, 0x1E);
    mmc1_write(&mut nes, 0xA000, 3);
    mmc1_write(&mut nes, 0xC000, 1);
    assert_eq!(nes.bus.ppu.chr_bank0, 3);
    assert_eq!(nes.bus.ppu.chr_bank1, 1);
    mmc1_write(&mut nes, 0x8000, 0x01);
    assert_eq!(nes.bus.ppu.mirroring, Mirroring::SingleScreenHigh);
    // A write with bit 7 set resets the serial port.
    nes.mem_write(0x8000, 1);
    nes.mem_write(0x8000, 0x80);
    assert_eq!(nes.bus.cartridge.as_ref().unwrap().mmc1_shift_count, 0);
}

#[test]
fn cpu_writes_switch_uxrom_bank() {
    let mut data = mmc1_rom();
    data[6] = 0x20;
    let mut nes = Nes::new();
    assert!(nes.load_rom_bytes(&data).is_ok());
    nes.mem_write(0x8000, 1);
    assert_eq!(nes.mem_read(0x8000), 1);
    assert_eq!(nes.mem_read(0xC000), 3);
}

#[test]
fn chr_ram_written_through_ppudata() {
    let mut nes = Nes::new();
    assert!(nes.load_rom_bytes(&mmc1_rom()).is_ok());
    assert_eq!(nes.bus.ppu.chr_ram.len(), 0x2000);
    nes.mem_write(0x2006, 0x00);
    nes.mem_write(0x2006, 0x10);
    nes.mem_write(0x2007, 0x5A);
    nes.mem_write(0x2007, 0xA5);
    assert_eq!(nes.bus.ppu.chr_ram[0x10], 0x5A);
    assert_eq!(nes.bus.ppu.chr_ram[0x11], 0xA5);
    // CHR-ROM ignores such writes.
    let mut rom_nes = console(&[]);
    rom_nes.mem_write(0x2006, 0x00);
    rom_nes.mem_write(0x2006, 0x10);
    rom_nes.mem_write(0x2007, 0x5A);
    assert_eq!(rom_nes.bus.ppu.chr_rom[0x10], 0x11);
    assert!(rom_nes.bus.ppu.chr_ram.is_empty());
}

#[test]
fn prg_appears_at_8000_and_c000() {
    let mut nes = console(&[(0x123, &[0x5A])]);
    assert_eq!(nes.mem_read(0x8123), 0x5A);
    assert_eq!(nes.mem_read(0xC123), 0x5A);
    assert_eq!(nes.mem_read(0xFFFC), 0x00);
    assert_eq!(nes.mem_read(0xFFFD), 0x80);
}

#[test]
fn step_frame_runs_one_frame() {
    // JMP $8000 forever: 3 cycles, 9 dots per step.
    let mut nes = console(&[(0, &[0x4C, 0x00, 0x80])]);
    let total = nes.step_frame();
    assert_eq!(nes.bus.ppu.frame, 1);
    // 341 x 262 = 89342 dots: the step that reaches them is the 9927th.
    assert_eq!(total, 3 * 9927);
    assert_eq!(nes.get_cycles(), 8 + 3 * 9927);
    let total2 = nes.step_frame();
    assert_eq!(nes.bus.ppu.frame, 2);
    assert!(total2 >= 29780 && total2 <= 29784);
}

#[test]
fn nmi_then_rti_resumes_program() {
    // Enable NMI on vblank, then loop; the handler returns at once.
    let mut nes = console(&[(0, &[0xA9, 0x80, 0x8D, 0x00, 0x20, 0x4C, 0x05, 0x80]), (0x100, &[0x40])]);
    let mut steps = 0;
    while nes.get_pc() != NMI_HANDLER {
        nes.step();
        steps += 1;
        assert!(steps < 40000);
    }
    assert_eq!(nes.bus.ppu.scanline, 241);
    assert_eq!(nes.get_sp(), 0xFA);
    assert_eq!(nes.mem_read(0x01FB) & 0x10, 0);
    assert_eq!(nes.get_status() & 0x04, 0x04);
    nes.step();
    assert_eq!(nes.get_pc(), 0x8005);
    assert_eq!(nes.get_sp(), 0xFD);
}

#[test]
fn set_pc_and_input() {
    let mut nes = Nes::new();
    nes.set_pc(0xC000);
    assert_eq!(nes.get_pc(), 0xC000);
    nes.set_input(0x81);
    assert_eq!(nes.bus.controller1, 0x81);
}

#[test]
fn apu_runs_one_cycle_per_cpu_cycle() {
    let mut nes = console(&[(0, &[0x4C, 0x00, 0x80])]);
    assert!(nes.take_audio_levels().is_empty());
    let n = nes.step();
    let levels = nes.take_audio_levels();
    assert_eq!(levels.len(), n as usize);
    assert!(nes.take_audio_levels().is_empty());
    let total = nes.step_frame();
    let levels = nes.take_audio_levels();
    assert_eq!(levels.len() as u64, total);
    assert!(levels.iter().all(|&l| l == (0, 0, 0, 0)));
    // The APU has run exactly as many cycles as the CPU since the reset.
    let mut apu = nes_core::apu::Apu::new();
    for _ in 0..(n as u64 + total) {
        apu.tick();
    }
    assert_eq!(apu.frame_counter, nes.bus.apu.frame_counter);
    assert_eq!(apu.apu_divider, nes.bus.apu.apu_divider);
}
