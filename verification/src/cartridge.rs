use vstd::prelude::*;
use vstd::slice::{slice_subrange, slice_to_vec};

use crate::bits::lemma_word_bits;

verus! {

/// Size of one PRG-ROM bank in an iNES image (16 KiB).
pub const PRG_BANK_SIZE: usize = 0x4000;

/// Size of one CHR bank in an iNES image (8 KiB), also the size of CHR-RAM.
pub const CHR_BANK_SIZE: usize = 0x2000;

/// How the four logical nametables are folded onto the console's 2 KiB of VRAM.
#[derive(Clone, Copy, Debug, PartialEq, Eq, Structural)]
pub enum Mirroring {
    Horizontal,
    Vertical,
    FourScreen,
    SingleScreenLow,
    SingleScreenHigh,
}

/// Why an iNES image was refused.
#[derive(Clone, Copy, Debug, PartialEq, Eq, Structural)]
pub enum RomError {
    /// Fewer than the 16 header bytes.
    TooShort,
    /// The first four bytes are not `NES\x1A`.
    BadMagic,
    /// The header names a mapper other than 0, 1 or 2.
    UnsupportedMapper(u8),
    /// The file is shorter than header, trainer, PRG and CHR together.
    Truncated { expected: usize, found: usize },
}

/// A cartridge: PRG/CHR memories and the mapper registers.
pub struct Cartridge {
    pub prg_rom: Vec<u8>,
    pub chr_rom: Vec<u8>,
    pub chr_ram: Vec<u8>,
    pub mapper: u8,
    pub mirroring: Mirroring,
    pub mmc1_shift: u8,
    pub mmc1_shift_count: u8,
    pub mmc1_control: u8,
    pub mmc1_chr0: u8,
    pub mmc1_chr1: u8,
    pub mmc1_prg: u8,
    pub uxrom_prg_bank: u8,
}

// ---------------------------------------------------------------------------
// The iNES header
// ---------------------------------------------------------------------------

pub open spec fn has_ines_magic(data: Seq<u8>) -> bool {
    &&& data[0] == 0x4E
    &&& data[1] == 0x45
    &&& data[2] == 0x53
    &&& data[3] == 0x1A
}

/// Mapper number: high nibble of byte 7 joined with the high nibble of byte 6.
pub open spec fn header_mapper(data: Seq<u8>) -> u8 {
    (data[7] & 0xF0) | (data[6] >> 4)
}

/// Nametable arrangement chosen by header byte 6.
pub open spec fn header_mirroring(flags6: u8) -> Mirroring {
    if flags6 & 0x08 != 0 {
        Mirroring::FourScreen
    } else if flags6 & 0x01 != 0 {
        Mirroring::Vertical
    } else {
        Mirroring::Horizontal
    }
}

/// Offset of PRG-ROM: after the header and, when flagged, a 512-byte trainer.
pub open spec fn prg_start(data: Seq<u8>) -> int {
    if data[6] & 0x04 != 0 {
        528int
    } else {
        16int
    }
}

pub open spec fn prg_size(data: Seq<u8>) -> int {
    data[4] as int * PRG_BANK_SIZE as int
}

pub open spec fn chr_size(data: Seq<u8>) -> int {
    data[5] as int * CHR_BANK_SIZE as int
}

pub open spec fn chr_start(data: Seq<u8>) -> int {
    prg_start(data) + prg_size(data)
}

/// Number of bytes that header, trainer, PRG-ROM and CHR-ROM occupy together.
pub open spec fn image_len(data: Seq<u8>) -> int {
    chr_start(data) + chr_size(data)
}

/// The reason an image is refused, checked in this order; `None` when it loads.
pub open spec fn rom_error(data: Seq<u8>) -> Option<RomError> {
    if data.len() < 16 {
        Some(RomError::TooShort)
    } else if !has_ines_magic(data) {
        Some(RomError::BadMagic)
    } else if header_mapper(data) > 2 {
        Some(RomError::UnsupportedMapper(header_mapper(data)))
    } else if data.len() < image_len(data) {
        Some(RomError::Truncated { expected: image_len(data) as usize, found: data.len() as usize })
    } else {
        None
    }
}

/// Character of the decimal digit `d` (0-9).
pub open spec fn digit_char(d: nat) -> char {
    (48 + d) as char
}

/// Decimal digits of `n`, most significant first, without leading zeros: what
/// `{}` prints for an unsigned integer.
pub open spec fn decimal(n: nat) -> Seq<char>
    decreases n,
{
    if n < 10 {
        seq![digit_char(n)]
    } else {
        decimal(n / 10).push(digit_char(n % 10))
    }
}

/// Text of the message for an unsupported mapper number.
pub open spec fn unsupported_mapper_text(mapper: u8) -> Seq<char> {
    "Mapper "@ + decimal(mapper as nat)
        + " não suportado — apenas Mapper 0 (NROM), Mapper 1 (MMC1) e Mapper 2 (UxROM) estão implementados"@
}

/// Text of the message for a truncated image.
pub open spec fn truncated_text(expected: usize, found: usize) -> Seq<char> {
    "ROM truncada: esperava "@ + decimal(expected as nat) + " bytes, encontrou "@ + decimal(
        found as nat,
    )
}

pub open spec fn rom_error_text(e: RomError) -> Seq<char> {
    match e {
        RomError::TooShort => "ROM inválida: menor que 16 bytes"@,
        RomError::BadMagic => "Magic number inválido — não é uma ROM iNES válida"@,
        RomError::UnsupportedMapper(m) => unsupported_mapper_text(m),
        RomError::Truncated { expected, found } => truncated_text(expected, found),
    }
}

/// Renders the unsupported-mapper message with std's `format!`. Trusted: `{}`
/// of an unsigned integer writes its decimal digits, so the text is the
/// template with the mapper number spelled out in decimal.
#[verifier::external_body]
fn format_unsupported_mapper(mapper: u8) -> (s: String)
    ensures
        s@ == unsupported_mapper_text(mapper),
{
    format!("Mapper {} não suportado — apenas Mapper 0 (NROM), Mapper 1 (MMC1) e Mapper 2 (UxROM) estão implementados", mapper)
}

/// Renders the truncated-image message with std's `format!`. Trusted: `{}` of
/// an unsigned integer writes its decimal digits, so the text is the template
/// with both sizes spelled out in decimal.
#[verifier::external_body]
fn format_truncated(expected: usize, found: usize) -> (s: String)
    ensures
        s@ == truncated_text(expected, found),
{
    format!("ROM truncada: esperava {} bytes, encontrou {}", expected, found)
}

impl RomError {
    /// Human-readable description of the refusal.
    pub fn message(&self) -> (s: String)
        ensures
            s@ == rom_error_text(*self),
    {
        match self {
            RomError::TooShort => "ROM inválida: menor que 16 bytes".to_owned(),
            RomError::BadMagic => "Magic number inválido — não é uma ROM iNES válida".to_owned(),
            RomError::UnsupportedMapper(m) => format_unsupported_mapper(*m),
            RomError::Truncated { expected, found } => format_truncated(*expected, *found),
        }
    }
}

// ---------------------------------------------------------------------------
// Mapper registers
// ---------------------------------------------------------------------------

/// The writable mapper state of a cartridge, as one value.
pub struct MapperRegs {
    pub shift: u8,
    pub shift_count: u8,
    pub control: u8,
    pub chr0: u8,
    pub chr1: u8,
    pub prg: u8,
    pub uxrom_bank: u8,
    pub mirroring: Mirroring,
}

/// Mirroring selected by the two low bits of the MMC1 control register.
pub open spec fn mmc1_mirroring(control: u8) -> Mirroring {
    let m = control & 0x03;
    if m == 0 {
        Mirroring::SingleScreenLow
    } else if m == 1 {
        Mirroring::SingleScreenHigh
    } else if m == 2 {
        Mirroring::Vertical
    } else {
        Mirroring::Horizontal
    }
}

/// Which MMC1 register a full five-bit value lands in, by CPU address.
pub open spec fn mmc1_commit(r: MapperRegs, addr: u16, data: u8) -> MapperRegs {
    let r = MapperRegs { shift: 0, shift_count: 0, ..r };
    if 0x8000 <= addr <= 0x9FFF {
        MapperRegs { control: data, mirroring: mmc1_mirroring(data), ..r }
    } else if 0xA000 <= addr <= 0xBFFF {
        MapperRegs { chr0: data, ..r }
    } else if 0xC000 <= addr <= 0xDFFF {
        MapperRegs { chr1: data, ..r }
    } else if 0xE000 <= addr {
        MapperRegs { prg: data & 0x0F, ..r }
    } else {
        r
    }
}

/// Effect of a CPU write to $8000-$FFFF on the mapper registers.
/// UxROM latches the value as its bank; otherwise the MMC1 serial port
/// shifts in bit 0 (bit 7 resets it), committing on the fifth bit.
pub open spec fn regs_after_write(r: MapperRegs, mapper: u8, addr: u16, value: u8) -> MapperRegs {
    if mapper == 2 {
        MapperRegs { uxrom_bank: value, ..r }
    } else if value & 0x80 != 0 {
        MapperRegs { shift: 0, shift_count: 0, control: r.control | 0x0C, ..r }
    } else {
        let shift = r.shift | (((value & 1) as u8) << r.shift_count);
        let count = (r.shift_count + 1) as u8;
        if count == 5 {
            mmc1_commit(r, addr, shift)
        } else {
            MapperRegs { shift: shift, shift_count: count, ..r }
        }
    }
}

impl Cartridge {
    pub open spec fn regs(self) -> MapperRegs {
        MapperRegs {
            shift: self.mmc1_shift,
            shift_count: self.mmc1_shift_count,
            control: self.mmc1_control,
            chr0: self.mmc1_chr0,
            chr1: self.mmc1_chr1,
            prg: self.mmc1_prg,
            uxrom_bank: self.uxrom_prg_bank,
            mirroring: self.mirroring,
        }
    }

    /// The cartridge with its mapper registers replaced by `r`.
    pub open spec fn with_regs(self, r: MapperRegs) -> Cartridge {
        Cartridge {
            mmc1_shift: r.shift,
            mmc1_shift_count: r.shift_count,
            mmc1_control: r.control,
            mmc1_chr0: r.chr0,
            mmc1_chr1: r.chr1,
            mmc1_prg: r.prg,
            uxrom_prg_bank: r.uxrom_bank,
            mirroring: r.mirroring,
            ..self
        }
    }

    /// The cartridge after a CPU write of `value` to `addr` in $8000-$FFFF.
    pub open spec fn after_prg_write(self, addr: u16, value: u8) -> Cartridge {
        self.with_regs(regs_after_write(self.regs(), self.mapper, addr, value))
    }

    /// The cartridge holds exactly what the iNES image `data` describes,
    /// with the mapper registers at their power-on values.
    pub open spec fn is_loaded_from(self, data: Seq<u8>) -> bool {
        &&& self.prg_rom@ == data.subrange(prg_start(data), chr_start(data))
        &&& self.chr_rom@ == data.subrange(chr_start(data), image_len(data))
        &&& self.chr_ram@ == (if chr_size(data) == 0 {
            Seq::new(CHR_BANK_SIZE as nat, |i: int| 0u8)
        } else {
            Seq::empty()
        })
        &&& self.mapper == header_mapper(data)
        &&& self.mirroring == header_mirroring(data[6])
        &&& self.mmc1_shift == 0
        &&& self.mmc1_shift_count == 0
        &&& self.mmc1_control == 0x0C
        &&& self.mmc1_chr0 == 0
        &&& self.mmc1_chr1 == 0
        &&& self.mmc1_prg == 0
        &&& self.uxrom_prg_bank == 0
    }

    /// Number of whole 16 KiB PRG banks.
    pub open spec fn prg_banks(self) -> int {
        self.prg_rom@.len() as int / PRG_BANK_SIZE as int
    }

    /// Bank shown in 16 KiB slot `slot` (0: $8000-$BFFF, 1: $C000-$FFFF)
    /// for the banked mappers, before reduction modulo the bank count.
    pub open spec fn slot_bank(self, slot: int) -> int {
        if self.mapper == 1 {
            let mode = (self.mmc1_control >> 2) & 0x03;
            if mode <= 1 {
                // 32 KiB mode: an even/odd pair of banks, bit 0 ignored.
                (self.mmc1_prg & 0xFE) as int + slot
            } else if mode == 2 {
                if slot == 0 { 0 } else { self.mmc1_prg as int }
            } else {
                if slot == 0 { self.mmc1_prg as int } else { self.prg_banks() - 1 }
            }
        } else {
            if slot == 0 { self.uxrom_prg_bank as int } else { self.prg_banks() - 1 }
        }
    }

    /// Inputs on which `read_prg` indexes inside PRG-ROM: the banked
    /// mappers need at least one whole bank and an address inside the window.
    pub open spec fn prg_readable(self, addr: u16) -> bool {
        ||| self.prg_rom@.len() == 0
        ||| self.mapper == 0
        ||| self.mapper > 2
        ||| (self.prg_rom@.len() >= PRG_BANK_SIZE && addr < 0x8000)
    }

    /// Byte seen by the CPU at `$8000 + addr`.
    pub open spec fn prg_byte(self, addr: u16) -> u8 {
        let len = self.prg_rom@.len() as int;
        if len == 0 {
            0
        } else if self.mapper == 0 {
            self.prg_rom@[addr as int % len]
        } else if self.mapper == 1 || self.mapper == 2 {
            let slot = addr as int / PRG_BANK_SIZE as int;
            let bank = self.slot_bank(slot) % self.prg_banks();
            self.prg_rom@[bank * PRG_BANK_SIZE as int + addr as int % PRG_BANK_SIZE as int]
        } else {
            0
        }
    }

    /// Inputs on which `read_chr` stays inside CHR-ROM.
    pub open spec fn chr_readable(self) -> bool {
        (self.mapper == 0 || self.mapper == 2) && self.chr_rom@.len() > 0 ==> self.chr_rom@.len()
            >= CHR_BANK_SIZE
    }

    /// Byte of CHR-RAM at `idx`, or 0 past its end.
    pub open spec fn chr_ram_byte(self, idx: int) -> u8 {
        if idx < self.chr_ram@.len() {
            self.chr_ram@[idx]
        } else {
            0
        }
    }

    /// Byte seen by the PPU at pattern address `addr`.
    pub open spec fn chr_byte(self, addr: u16) -> u8 {
        let idx = (addr & 0x1FFF) as int;
        let len = self.chr_rom@.len() as int;
        if self.mapper == 0 || self.mapper == 2 {
            if len == 0 {
                self.chr_ram_byte(idx)
            } else {
                self.chr_rom@[idx]
            }
        } else if self.mapper == 1 {
            if len == 0 {
                self.chr_ram_byte(idx)
            } else if (self.mmc1_control >> 4) & 1 == 0 {
                // 8 KiB mode: an even/odd pair of 4 KiB banks.
                self.chr_rom@[((self.mmc1_chr0 & 0xFE) as int * 0x2000 + addr as int) % len]
            } else if addr < 0x1000 {
                self.chr_rom@[(self.mmc1_chr0 as int * 0x1000 + addr as int) % len]
            } else {
                self.chr_rom@[(self.mmc1_chr1 as int * 0x1000 + addr as int - 0x1000) % len]
            }
        } else {
            0
        }
    }

    /// Parses an iNES image into a cartridge.
    pub fn parse(data: &[u8]) -> (r: Result<Cartridge, RomError>)
        ensures
            match rom_error(data@) {
                Some(e) => r == Err::<Cartridge, RomError>(e),
                None => r matches Ok(c) && c.is_loaded_from(data@),
            },
    {
        if data.len() < 16 {
            return Err(RomError::TooShort);
        }
        if !(data[0] == 0x4E && data[1] == 0x45 && data[2] == 0x53 && data[3] == 0x1A) {
            return Err(RomError::BadMagic);
        }
        let prg_size = data[4] as usize * PRG_BANK_SIZE;
        let chr_size = data[5] as usize * CHR_BANK_SIZE;
        let flags6 = data[6];
        let flags7 = data[7];
        let mapper = (flags7 & 0xF0) | (flags6 >> 4);
        if mapper != 0 && mapper != 1 && mapper != 2 {
            return Err(RomError::UnsupportedMapper(mapper));
        }
        let mirroring = if flags6 & 0x08 != 0 {
            Mirroring::FourScreen
        } else if flags6 & 0x01 != 0 {
            Mirroring::Vertical
        } else {
            Mirroring::Horizontal
        };
        let trainer_offset: usize = if flags6 & 0x04 != 0 { 512 } else { 0 };
        let prg_start = 16 + trainer_offset;
        let chr_start = prg_start + prg_size;
        if data.len() < chr_start + chr_size {
            return Err(RomError::Truncated { expected: chr_start + chr_size, found: data.len() });
        }
        let prg_rom = slice_to_vec(slice_subrange(data, prg_start, chr_start));
        let chr_rom = slice_to_vec(slice_subrange(data, chr_start, chr_start + chr_size));
        let chr_ram = if chr_size == 0 {
            zeroed(CHR_BANK_SIZE)
        } else {
            Vec::new()
        };
        Ok(Cartridge {
            prg_rom,
            chr_rom,
            chr_ram,
            mapper,
            mirroring,
            mmc1_shift: 0,
            mmc1_shift_count: 0,
            mmc1_control: 0x0C,
            mmc1_chr0: 0,
            mmc1_chr1: 0,
            mmc1_prg: 0,
            uxrom_prg_bank: 0,
        })
    }

    /// Parses an iNES image; a refused image yields the message of its `RomError`.
    pub fn from_bytes(data: &[u8]) -> (r: Result<Self, String>)
        ensures
            match rom_error(data@) {
                Some(e) => r matches Err(s) && s@ == rom_error_text(e),
                None => r matches Ok(c) && c.is_loaded_from(data@),
            },
    {
        match Cartridge::parse(data) {
            Ok(c) => Ok(c),
            Err(e) => Err(e.message()),
        }
    }

    /// Reads PRG-ROM; `addr` is relative to $8000.
    pub fn read_prg(&self, addr: u16) -> (r: u8)
        requires
            self.prg_readable(addr),
        ensures
            r == self.prg_byte(addr),
    {
        let len = self.prg_rom.len();
        if len == 0 {
            return 0;
        }
        if self.mapper == 0 {
            self.prg_rom[addr as usize % len]
        } else if self.mapper == 1 || self.mapper == 2 {
            let prg_banks = len / PRG_BANK_SIZE;
            let (bank_lo, bank_hi) = if self.mapper == 1 {
                let mode = (self.mmc1_control >> 2) & 0x03;
                if mode <= 1 {
                    let bank = (self.mmc1_prg & 0xFE) as usize;
                    (bank, bank + 1)
                } else if mode == 2 {
                    (0, self.mmc1_prg as usize)
                } else {
                    (self.mmc1_prg as usize, prg_banks - 1)
                }
            } else {
                (self.uxrom_prg_bank as usize, prg_banks - 1)
            };
            proof {
                assert(prg_banks * PRG_BANK_SIZE <= len) by (nonlinear_arith)
                    requires
                        prg_banks == len / PRG_BANK_SIZE,
                ;
            }
            if addr < 0x4000 {
                let bank = bank_lo % prg_banks;
                proof {
                    assert(bank * PRG_BANK_SIZE + addr < len) by (nonlinear_arith)
                        requires
                            bank < prg_banks,
                            addr < PRG_BANK_SIZE,
                            prg_banks * PRG_BANK_SIZE <= len,
                    ;
                }
                self.prg_rom[bank * PRG_BANK_SIZE + addr as usize]
            } else {
                let bank = bank_hi % prg_banks;
                proof {
                    assert(bank * PRG_BANK_SIZE + (addr - 0x4000) < len) by (nonlinear_arith)
                        requires
                            bank < prg_banks,
                            addr - 0x4000 < PRG_BANK_SIZE,
                            prg_banks * PRG_BANK_SIZE <= len,
                    ;
                }
                self.prg_rom[bank * PRG_BANK_SIZE + (addr - 0x4000) as usize]
            }
        } else {
            0
        }
    }

    /// Handles a CPU write to $8000-$FFFF (a mapper register).
    pub fn write_prg(&mut self, addr: u16, value: u8)
        requires
            old(self).mapper == 2 || value & 0x80 != 0 || old(self).mmc1_shift_count < 8,
        ensures
            *final(self) == old(self).after_prg_write(addr, value),
            final(self).regs() == regs_after_write(old(self).regs(), old(self).mapper, addr, value),
            old(self).mmc1_shift_count < 5 ==> final(self).mmc1_shift_count < 5,
            final(self).mapper == old(self).mapper,
            final(self).prg_rom@ == old(self).prg_rom@,
            final(self).chr_rom@ == old(self).chr_rom@,
            final(self).chr_ram@ == old(self).chr_ram@,
    {
        if self.mapper == 2 {
            self.uxrom_prg_bank = value;
            return;
        }
        if value & 0x80 != 0 {
            self.mmc1_shift = 0;
            self.mmc1_shift_count = 0;
            self.mmc1_control = self.mmc1_control | 0x0C;
            return;
        }
        self.mmc1_shift = self.mmc1_shift | ((value & 1) << self.mmc1_shift_count);
        self.mmc1_shift_count = self.mmc1_shift_count + 1;
        if self.mmc1_shift_count == 5 {
            let data = self.mmc1_shift;
            self.mmc1_shift = 0;
            self.mmc1_shift_count = 0;
            if 0x8000 <= addr && addr <= 0x9FFF {
                self.mmc1_control = data;
                let m = data & 0x03;
                self.mirroring = if m == 0 {
                    Mirroring::SingleScreenLow
                } else if m == 1 {
                    Mirroring::SingleScreenHigh
                } else if m == 2 {
                    Mirroring::Vertical
                } else {
                    Mirroring::Horizontal
                };
            } else if 0xA000 <= addr && addr <= 0xBFFF {
                self.mmc1_chr0 = data;
            } else if 0xC000 <= addr && addr <= 0xDFFF {
                self.mmc1_chr1 = data;
            } else if 0xE000 <= addr {
                self.mmc1_prg = data & 0x0F;
            }
        }
    }

    /// Reads the pattern space ($0000-$1FFF), with MMC1 CHR banking.
    pub fn read_chr(&self, addr: u16) -> (r: u8)
        requires
            self.chr_readable(),
        ensures
            r == self.chr_byte(addr),
    {
        let idx = (addr & 0x1FFF) as usize;
        proof {
            lemma_word_bits();
        }
        let len = self.chr_rom.len();
        if self.mapper == 0 || self.mapper == 2 {
            if len == 0 {
                self.chr_ram_at(idx)
            } else {
                self.chr_rom[idx]
            }
        } else if self.mapper == 1 {
            if len == 0 {
                return self.chr_ram_at(idx);
            }
            let chr_mode = (self.mmc1_control >> 4) & 1;
            if chr_mode == 0 {
                let bank = (self.mmc1_chr0 & 0xFE) as usize;
                let offset = bank * 0x2000 + addr as usize;
                self.chr_rom[offset % len]
            } else if addr < 0x1000 {
                let offset = self.mmc1_chr0 as usize * 0x1000 + addr as usize;
                self.chr_rom[offset % len]
            } else {
                let offset = self.mmc1_chr1 as usize * 0x1000 + (addr - 0x1000) as usize;
                self.chr_rom[offset % len]
            }
        } else {
            0
        }
    }

    fn chr_ram_at(&self, idx: usize) -> (r: u8)
        ensures
            r == self.chr_ram_byte(idx as int),
    {
        if idx < self.chr_ram.len() {
            self.chr_ram[idx]
        } else {
            0
        }
    }

    /// Writes CHR-RAM; ignored when the cartridge has CHR-ROM.
    pub fn write_chr(&mut self, addr: u16, value: u8)
        ensures
            final(self).chr_ram@ == (if old(self).chr_rom@.len() == 0 && ((addr & 0x1FFF) as int)
                < old(self).chr_ram@.len() {
                old(self).chr_ram@.update((addr & 0x1FFF) as int, value)
            } else {
                old(self).chr_ram@
            }),
            final(self).chr_rom@ == old(self).chr_rom@,
            final(self).prg_rom@ == old(self).prg_rom@,
            final(self).regs() == old(self).regs(),
            final(self).mapper == old(self).mapper,
    {
        if self.chr_rom.len() == 0 {
            let idx = (addr & 0x1FFF) as usize;
            if idx < self.chr_ram.len() {
                self.chr_ram.set(idx, value);
            }
        }
    }
}

/// A vector of `n` zero bytes.
fn zeroed(n: usize) -> (v: Vec<u8>)
    ensures
        v@ == Seq::new(n as nat, |i: int| 0u8),
{
    let mut v: Vec<u8> = Vec::new();
    while v.len() < n
        invariant
            v.len() <= n,
            forall|i: int| 0 <= i < v.len() ==> v@[i] == 0u8,
        decreases n - v.len(),
    {
        v.push(0);
    }
    assert(v@ =~= Seq::new(n as nat, |i: int| 0u8));
    v
}


/// MMC1 serial port: from an empty shift register, five writes with bit 7 clear
/// load bit 0 of each written value, the first write giving the lowest bit, and
/// the fifth write commits that 5-bit value to the register its address selects.
pub proof fn lemma_mmc1_serial_load(
    r: MapperRegs,
    mapper: u8,
    a0: u16,
    a1: u16,
    a2: u16,
    a3: u16,
    a4: u16,
    v0: u8,
    v1: u8,
    v2: u8,
    v3: u8,
    v4: u8,
)
    requires
        mapper != 2,
        r.shift == 0,
        r.shift_count == 0,
        v0 & 0x80 == 0,
        v1 & 0x80 == 0,
        v2 & 0x80 == 0,
        v3 & 0x80 == 0,
        v4 & 0x80 == 0,
    ensures
        ({
            let r1 = regs_after_write(r, mapper, a0, v0);
            let r2 = regs_after_write(r1, mapper, a1, v1);
            let r3 = regs_after_write(r2, mapper, a2, v2);
            let r4 = regs_after_write(r3, mapper, a3, v3);
            regs_after_write(r4, mapper, a4, v4) == mmc1_commit(
                r,
                a4,
                (v0 & 1) | ((v1 & 1) << 1u8) | ((v2 & 1) << 2u8) | ((v3 & 1) << 3u8) | ((v4 & 1)
                    << 4u8),
            )
        }),
{
    let s1 = 0u8 | ((v0 & 1) << 0u8);
    let s2 = s1 | ((v1 & 1) << 1u8);
    let s3 = s2 | ((v2 & 1) << 2u8);
    let s4 = s3 | ((v3 & 1) << 3u8);
    let s5 = s4 | ((v4 & 1) << 4u8);
    assert(s1 == v0 & 1) by (bit_vector)
        requires
            s1 == 0u8 | ((v0 & 1) << 0u8),
    ;
    assert(s5 == (v0 & 1) | ((v1 & 1) << 1u8) | ((v2 & 1) << 2u8) | ((v3 & 1) << 3u8) | ((v4 & 1)
        << 4u8)) by (bit_vector)
        requires
            s1 == v0 & 1,
            s2 == s1 | ((v1 & 1) << 1u8),
            s3 == s2 | ((v2 & 1) << 2u8),
            s4 == s3 | ((v3 & 1) << 3u8),
            s5 == s4 | ((v4 & 1) << 4u8),
    ;
    let r1 = regs_after_write(r, mapper, a0, v0);
    assert(r1 == MapperRegs { shift: s1, shift_count: 1, ..r });
    let r2 = regs_after_write(r1, mapper, a1, v1);
    assert(r2 == MapperRegs { shift: s2, shift_count: 2, ..r });
    let r3 = regs_after_write(r2, mapper, a2, v2);
    assert(r3 == MapperRegs { shift: s3, shift_count: 3, ..r });
    let r4 = regs_after_write(r3, mapper, a3, v3);
    assert(r4 == MapperRegs { shift: s4, shift_count: 4, ..r });
    assert(mmc1_commit(r4, a4, s5) == mmc1_commit(r, a4, s5));
}

/// UxROM: after a write to $8000-$FFFF, $8000-$BFFF shows the bank the written
/// value selects (modulo the bank count) and $C000-$FFFF the last bank.
pub proof fn lemma_uxrom_bank_select(c: Cartridge, d: Cartridge, addr: u16, value: u8, a: u16)
    requires
        c.mapper == 2,
        d.mapper == 2,
        d.regs() == regs_after_write(c.regs(), c.mapper, addr, value),
        d.prg_rom@ == c.prg_rom@,
        c.prg_rom@.len() >= PRG_BANK_SIZE,
        a < 0x8000,
    ensures
        a < 0x4000 ==> d.prg_byte(a) == d.prg_rom@[(value as int % d.prg_banks()) * PRG_BANK_SIZE
            + a],
        a >= 0x4000 ==> d.prg_byte(a) == d.prg_rom@[(d.prg_banks() - 1) * PRG_BANK_SIZE + a
            - 0x4000],
{
    assert(d.uxrom_prg_bank == value);
    assert(d.prg_banks() >= 1) by (nonlinear_arith)
        requires
            d.prg_rom@.len() >= PRG_BANK_SIZE,
            d.prg_banks() == d.prg_rom@.len() as int / PRG_BANK_SIZE as int,
    ;
    assert(a < 0x4000 ==> a as int / 0x4000 == 0 && a as int % 0x4000 == a);
    assert(a >= 0x4000 ==> a as int / 0x4000 == 1 && a as int % 0x4000 == a - 0x4000);
    assert(0 <= d.prg_banks() - 1 < d.prg_banks());
    vstd::arithmetic::div_mod::lemma_small_mod((d.prg_banks() - 1) as nat, d.prg_banks() as nat);
}

/// CHR-RAM read-back: on a cartridge without CHR-ROM whose CHR-RAM covers the
/// address, the pattern byte written by `write_chr` is the one `read_chr` returns.
pub proof fn lemma_chr_ram_round_trip(c: Cartridge, d: Cartridge, addr: u16, value: u8)
    requires
        c.mapper <= 2,
        c.chr_rom@.len() == 0,
        ((addr & 0x1FFF) as int) < c.chr_ram@.len(),
        d.chr_ram@ == c.chr_ram@.update((addr & 0x1FFF) as int, value),
        d.chr_rom@ == c.chr_rom@,
        d.mapper == c.mapper,
        d.regs() == c.regs(),
    ensures
        d.chr_byte(addr) == value,
{
}

} // verus!
