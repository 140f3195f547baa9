use vstd::prelude::*;

use crate::apu::Apu;
use crate::bits::{lemma_byte_bits, lemma_byte_shl, lemma_word_bits};
use crate::cartridge::{Cartridge, PRG_BANK_SIZE, regs_after_write};
use crate::ppu::{Ppu, PpuView, power_on, register_read, register_write};

verus! {

/// The CPU's memory map: 2 KiB of RAM, the PPU registers, the APU and
/// controller ports, and the cartridge.
pub struct Bus {
    pub ram: [u8; 2048],
    pub cartridge: Option<Cartridge>,
    pub ppu: Ppu,
    /// Buttons of the first controller, as last set by the frontend: bit 7 is A,
    /// then B, Select, Start, Up, Down, Left and Right down to bit 0.
    pub controller1: u8,
    /// The controller's shift register: bit 7 is the next button $4016 reports.
    pub controller_shift: u8,
    /// The strobe bit last written to $4016; while set, the buttons are reloaded.
    pub controller_strobe: bool,
    pub apu: Apu,
}

/// The bus as a mathematical value.
#[verifier::ext_equal]
pub struct BusView {
    pub ram: Seq<u8>,
    pub cartridge: Option<Cartridge>,
    pub ppu: PpuView,
    pub controller1: u8,
    pub controller_shift: u8,
    pub controller_strobe: bool,
    pub apu: Apu,
}

impl View for Bus {
    type V = BusView;

    open spec fn view(&self) -> BusView {
        BusView {
            ram: self.ram@,
            cartridge: self.cartridge,
            ppu: self.ppu@,
            controller1: self.controller1,
            controller_shift: self.controller_shift,
            controller_strobe: self.controller_strobe,
            apu: self.apu,
        }
    }
}

/// Index in RAM of a CPU address below $2000: the 2 KiB repeat four times.
pub open spec fn ram_index(addr: u16) -> int {
    (addr & 0x07FF) as int
}

/// A CPU read at `addr`: the new bus state (PPU register and controller reads
/// have side effects) and the byte read. $4016 reports the next controller button
/// in bit 0; other APU/IO and expansion addresses read as 0, as does an empty slot.
#[verifier::opaque]
pub open spec fn bus_read(b: BusView, addr: u16) -> (BusView, u8) {
    if addr <= 0x1FFF {
        (b, b.ram[ram_index(addr)])
    } else if addr <= 0x3FFF {
        let (p, v) = register_read(b.ppu, addr & 0x2007);
        (BusView { ppu: p, ..b }, v)
    } else if addr == 0x4016 {
        controller_read(b)
    } else if addr <= 0x7FFF {
        (b, 0)
    } else {
        match b.cartridge {
            Some(c) => (b, c.prg_byte((addr - 0x8000) as u16)),
            None => (b, 0),
        }
    }
}

/// A read of $4016: while the strobe is set, the A button; otherwise the next bit
/// of the shift register, which then moves up one place (a zero comes in).
pub open spec fn controller_read(b: BusView) -> (BusView, u8) {
    if b.controller_strobe {
        (b, b.controller1 / 128)
    } else {
        (
            BusView { controller_shift: ((b.controller_shift as int * 2) % 256) as u8, ..b },
            b.controller_shift / 128,
        )
    }
}

/// A write to $4016: bit 0 is the strobe; while it is set, and on the write that
/// clears it, the shift register is loaded with the buttons.
pub open spec fn controller_write(b: BusView, value: u8) -> BusView {
    let strobe = value % 2 == 1;
    BusView {
        controller_strobe: strobe,
        controller_shift: if strobe || b.controller_strobe {
            b.controller1
        } else {
            b.controller_shift
        },
        ..b
    }
}

/// OAM after a DMA from page `page`: the 256 bytes of RAM at `page * 256` (RAM
/// repeating every 2 KiB).
pub open spec fn dma_oam(ram: Seq<u8>, page: u8) -> Seq<u8> {
    Seq::new(256, |i: int| ram[(page as int * 256 + i) % 0x800])
}

/// The PPU with the nametable mirroring and CHR bank registers of MMC1 cartridge `c`.
pub open spec fn ppu_follows_mmc1(p: PpuView, c: Cartridge) -> PpuView {
    PpuView {
        mirroring: c.mirroring,
        chr_control: c.mmc1_control,
        chr_bank0: c.mmc1_chr0,
        chr_bank1: c.mmc1_chr1,
        ..p
    }
}

/// The PPU given cartridge `c`'s pattern memory, CHR banking and mirroring.
pub open spec fn ppu_with_cartridge(p: PpuView, c: Cartridge) -> PpuView {
    PpuView {
        chr_rom: c.chr_rom@,
        chr_ram: c.chr_ram@,
        chr_mapper: c.mapper,
        chr_control: c.mmc1_control,
        chr_bank0: c.mmc1_chr0,
        chr_bank1: c.mmc1_chr1,
        mirroring: c.mirroring,
        ..p
    }
}

/// The cartridge and the PPU after a CPU write to $8000-$FFFF: MMC1 and UxROM take
/// it as a mapper register write, and the PPU follows MMC1's nametable mirroring
/// and CHR banks. NROM ignores it.
pub open spec fn mapper_write(b: BusView, addr: u16, value: u8) -> BusView {
    match b.cartridge {
        Some(c) => if c.mapper == 1 || c.mapper == 2 {
            let c1 = c.after_prg_write(addr, value);
            let ppu = if c.mapper == 1 {
                ppu_follows_mmc1(b.ppu, c1)
            } else {
                b.ppu
            };
            BusView { cartridge: Some(c1), ppu: ppu, ..b }
        } else {
            b
        },
        None => b,
    }
}

/// A CPU write of `value` at `addr`: RAM, the PPU registers, OAM DMA ($4014), the
/// APU registers, the controller strobe ($4016) and the cartridge's mapper take it;
/// the rest ignores it.
#[verifier::opaque]
pub open spec fn bus_write(b: BusView, addr: u16, value: u8) -> BusView {
    if addr <= 0x1FFF {
        BusView { ram: b.ram.update(ram_index(addr), value), ..b }
    } else if addr <= 0x3FFF {
        BusView { ppu: register_write(b.ppu, addr & 0x2007, value), ..b }
    } else if addr == 0x4014 {
        BusView { ppu: PpuView { oam: dma_oam(b.ram, value), ..b.ppu }, ..b }
    } else if addr == 0x4016 {
        controller_write(b, value)
    } else if addr <= 0x4017 {
        BusView { apu: b.apu.after_write(addr, value), ..b }
    } else if addr >= 0x8000 {
        mapper_write(b, addr, value)
    } else {
        b
    }
}

impl BusView {
    /// RAM is 2 KiB, OAM 256 bytes, the APU's registers are in range, and any
    /// cartridge has PRG-ROM that a banked mapper can index and an MMC1 shift
    /// register that has taken fewer than five bits.
    pub open spec fn wf(self) -> bool {
        &&& self.ram.len() == 2048
        &&& self.ppu.oam.len() == 256
        &&& self.apu.wf()
        &&& self.cartridge matches Some(c) ==> {
            &&& c.mmc1_shift_count < 5
            &&& {
                ||| c.prg_rom@.len() == 0
                ||| c.mapper == 0
                ||| c.mapper > 2
                ||| c.prg_rom@.len() >= PRG_BANK_SIZE
            }
        }
    }
}

/// Reading and writing leave well-formedness alone; reads leave the cartridge
/// alone, and only writes to $8000 and up reach it.
pub proof fn lemma_access_keeps_wf(b: BusView, addr: u16, value: u8)
    requires
        b.wf(),
    ensures
        bus_read(b, addr).0.wf(),
        bus_read(b, addr).0.cartridge == b.cartridge,
        bus_write(b, addr, value).wf(),
        addr < 0x8000 ==> bus_write(b, addr, value).cartridge == b.cartridge,
{
    reveal(bus_read);
    reveal(bus_write);
    if addr >= 0x8000 {
        if let Some(c) = b.cartridge {
            let r = regs_after_write(c.regs(), c.mapper, addr, value);
            assert(r.shift_count < 5);
            assert(c.after_prg_write(addr, value).prg_rom == c.prg_rom);
        }
    } else if addr == 0x4014 {
        assert(dma_oam(b.ram, value).len() == 256);
    } else if addr <= 0x1FFF {
        assert(addr & 0x07FF < 2048) by { lemma_word_bits(); }
    } else if 0x4000 <= addr <= 0x4017 {
        crate::apu::lemma_write_keeps_wf(b.apu, addr, value);
    }
}

/// The 2 KiB of RAM appear four times below $2000: a read there does not
/// change the bus and sees the same byte as the read at the address modulo $800.
pub proof fn lemma_ram_mirroring(b: BusView, addr: u16)
    requires
        addr <= 0x1FFF,
    ensures
        bus_read(b, addr) == bus_read(b, addr % 0x800),
        bus_read(b, addr).0 == b,
{
    reveal(bus_read);
    assert(addr & 0x07FF == (addr % 0x800) & 0x07FF) by { lemma_word_bits(); }
}

/// The bus after `k` reads of `addr` in a row.
pub open spec fn read_times(b: BusView, addr: u16, k: nat) -> BusView
    decreases k,
{
    if k == 0 {
        b
    } else {
        bus_read(read_times(b, addr, (k - 1) as nat), addr).0
    }
}

proof fn lemma_shift_bits()
    by (bit_vector)
    ensures
        forall|s: u8, k: u8| k < 8 ==> #[trigger] ((s << k) << 1u8) == s << ((k + 1) as u8),
        forall|s: u8, k: u8| k < 8 ==> #[trigger] ((s << k) >> 7u8) == (s >> ((7 - k) as u8)) & 1,
        forall|s: u8| #[trigger] (s << 0u8) == s,
{
}

/// With the strobe clear, `k` reads of $4016 shift the register up `k` places.
proof fn lemma_controller_shift(b: BusView, k: nat)
    requires
        !b.controller_strobe,
        k < 8,
    ensures
        read_times(b, 0x4016, k).controller_shift == b.controller_shift << (k as u8),
        !read_times(b, 0x4016, k).controller_strobe,
    decreases k,
{
    lemma_shift_bits();
    if k > 0 {
        lemma_controller_shift(b, (k - 1) as nat);
        let prev = read_times(b, 0x4016, (k - 1) as nat);
        reveal(bus_read);
        let s0 = b.controller_shift;
        let sh = prev.controller_shift;
        assert(((sh as int * 2) % 256) as u8 == sh << 1u8) by { lemma_byte_shl(); }
        assert((s0 << ((k - 1) as u8)) << 1u8 == s0 << (k as u8));
    }
}

/// The controller's serial protocol: after $4016 is written with 1 and then 0,
/// the buttons are latched, and the `k`-th read of $4016 that follows (from 0)
/// returns button `k` in bit 0: A, B, Select, Start, Up, Down, Left, Right,
/// that is bit `7 - k` of the buttons.
pub proof fn lemma_controller_serial(b: BusView, k: nat)
    requires
        k < 8,
    ensures
        ({
            let latched = bus_write(bus_write(b, 0x4016, 1), 0x4016, 0);
            bus_read(read_times(latched, 0x4016, k), 0x4016).1 == (b.controller1 >> ((7 - k) as u8))
                & 1
        }),
{
    reveal(bus_write);
    let latched = bus_write(bus_write(b, 0x4016, 1), 0x4016, 0);
    assert(latched.controller_shift == b.controller1 && !latched.controller_strobe);
    lemma_controller_shift(latched, k);
    let cur = read_times(latched, 0x4016, k);
    reveal(bus_read);
    lemma_shift_bits();
    let sh = cur.controller_shift;
    assert(sh / 128 == sh >> 7u8) by { lemma_byte_bits(); }
    assert((b.controller1 << (k as u8)) >> 7u8 == (b.controller1 >> ((7 - k) as u8)) & 1);
}

/// Only writes below $2000 change RAM (OAM DMA reads it, it does not write it),
/// and no read changes it: so a RAM read returns the last value written to its
/// mirrored location.
pub proof fn lemma_ram_only_written_below_2000(b: BusView, addr: u16, value: u8)
    ensures
        addr >= 0x2000 ==> bus_write(b, addr, value).ram == b.ram,
        bus_read(b, addr).0.ram == b.ram,
{
    reveal(bus_read);
    reveal(bus_write);
}

/// A read of RAM returns what the last write to the same (mirrored) location stored,
/// and a write to another location does not disturb it.
pub proof fn lemma_ram_read_after_write(b: BusView, waddr: u16, raddr: u16, value: u8)
    requires
        waddr <= 0x1FFF,
        raddr <= 0x1FFF,
        b.ram.len() == 2048,
    ensures
        bus_read(bus_write(b, waddr, value), raddr).1 == if waddr % 0x800 == raddr % 0x800 {
            value
        } else {
            bus_read(b, raddr).1
        },
{
    reveal(bus_read);
    reveal(bus_write);
    assert(waddr & 0x07FF == waddr % 0x800) by { lemma_word_bits(); }
    assert(raddr & 0x07FF == raddr % 0x800) by { lemma_word_bits(); }
}

impl Bus {
    pub fn new() -> (b: Self)
        ensures
            b@.ram == Seq::new(2048, |i: int| 0u8),
            b.cartridge is None,
            b@.ppu == power_on(),
            b.controller1 == 0,
            b.controller_shift == 0,
            !b.controller_strobe,
            b.apu == Apu::power_on(),
            b@.wf(),
            b@.ppu.wf(),
    {
        let b = Bus {
            ram: [0u8; 2048],
            cartridge: None,
            ppu: Ppu::new(),
            controller1: 0,
            controller_shift: 0,
            controller_strobe: false,
            apu: Apu::new(),
        };
        assert(b@.ram =~= Seq::new(2048, |i: int| 0u8));
        b
    }

    /// A CPU read of the memory map.
    pub fn read(&mut self, addr: u16) -> (r: u8)
        requires
            old(self)@.wf(),
        ensures
            (final(self)@, r) === bus_read(old(self)@, addr),
            final(self)@.wf(),
            final(self)@.ppu.same_beam(old(self)@.ppu),
            final(self).cartridge == old(self).cartridge,
    {
        proof {
            reveal(bus_read);
        }
        if addr <= 0x1FFF {
            proof {
                assert(addr & 0x07FF < 2048) by { lemma_word_bits(); }
            }
            self.ram[(addr & 0x07FF) as usize]
        } else if addr <= 0x3FFF {
            self.ppu.read_register(addr & 0x2007)
        } else if addr == 0x4016 {
            let s = self.controller_shift;
            let b = self.controller1;
            proof {
                assert(s >> 7u8 == s / 128 && b >> 7u8 == b / 128) by { lemma_byte_bits(); }
                assert(s << 1u8 == (s * 2) % 256) by { lemma_byte_shl(); }
            }
            if self.controller_strobe {
                b >> 7
            } else {
                self.controller_shift = s << 1;
                s >> 7
            }
        } else if addr <= 0x7FFF {
            0
        } else {
            match &self.cartridge {
                Some(cart) => cart.read_prg(addr - 0x8000),
                None => 0,
            }
        }
    }

    /// OAM DMA: copies the 256 bytes of RAM page `page` into OAM.
    fn oam_dma(&mut self, page: u8)
        requires
            old(self)@.wf(),
        ensures
            final(self)@ === (BusView {
                ppu: PpuView { oam: dma_oam(old(self)@.ram, page), ..old(self)@.ppu },
                ..old(self)@
            }),
    {
        let base = page as usize * 256;
        let mut i: usize = 0;
        while i < 256
            invariant
                i <= 256,
                base == page * 256,
                self.ram@ == old(self).ram@,
                self.ram@.len() == 2048,
                self.ppu.oam@.len() == 256,
                forall|j: int| 0 <= j < i ==> self.ppu.oam@[j] == old(self).ram@[(base + j) % 0x800],
                forall|j: int| i <= j < 256 ==> self.ppu.oam@[j] == old(self)@.ppu.oam[j],
                self@ === (BusView { ppu: PpuView { oam: self.ppu.oam@, ..old(self)@.ppu }, ..old(self)@ }),
            decreases 256 - i,
        {
            let v = self.ram[(base + i) % 0x800];
            self.ppu.oam[i] = v;
            i = i + 1;
        }
        assert(self.ppu.oam@ =~= dma_oam(old(self)@.ram, page));
    }

    /// A CPU write to the memory map.
    #[verifier::rlimit(30)]
    pub fn write(&mut self, addr: u16, value: u8)
        requires
            old(self)@.wf(),
        ensures
            final(self)@ === bus_write(old(self)@, addr, value),
            final(self)@.wf(),
            final(self)@.ppu.same_beam(old(self)@.ppu),
    {
        proof {
            reveal(bus_write);
        }
        if addr <= 0x1FFF {
            proof {
                assert(addr & 0x07FF < 2048) by { lemma_word_bits(); }
            }
            self.ram[(addr & 0x07FF) as usize] = value;
        } else if addr <= 0x3FFF {
            self.ppu.write_register(addr & 0x2007, value);
        } else if addr == 0x4014 {
            self.oam_dma(value);
        } else if addr == 0x4016 {
            self.write_strobe(value);
        } else if addr <= 0x4017 {
            self.apu.write(addr, value);
        } else if addr >= 0x8000 {
            self.write_mapper(addr, value);
        }
    }

    /// A write to $4016.
    fn write_strobe(&mut self, value: u8)
        ensures
            final(self)@ === controller_write(old(self)@, value),
    {
        proof {
            assert(value & 1 == value % 2) by { lemma_byte_bits(); }
        }
        let strobe = value & 1 == 1;
        if strobe || self.controller_strobe {
            self.controller_shift = self.controller1;
        }
        self.controller_strobe = strobe;
    }

    /// A write to $8000-$FFFF.
    fn write_mapper(&mut self, addr: u16, value: u8)
        requires
            old(self)@.wf(),
        ensures
            final(self)@ === mapper_write(old(self)@, addr, value),
    {
        match &mut self.cartridge {
            Some(c) => {
                if c.mapper == 1 || c.mapper == 2 {
                    c.write_prg(addr, value);
                    if c.mapper == 1 {
                        self.ppu.mirroring = c.mirroring;
                        self.ppu.chr_control = c.mmc1_control;
                        self.ppu.chr_bank0 = c.mmc1_chr0;
                        self.ppu.chr_bank1 = c.mmc1_chr1;
                    }
                }
            },
            None => {},
        }
    }
}

} // verus!
