use vstd::prelude::*;

pub mod apu;
mod bits;
pub mod bus;
pub mod cartridge;
pub mod cpu;
pub mod opcodes;
pub mod ppu;

use crate::apu::{Apu, apu_run, apu_trace};
use crate::bus::{Bus, BusView, bus_read, bus_write, ppu_with_cartridge};
use crate::cartridge::{Cartridge, rom_error, rom_error_text};
use crate::cpu::{Cpu, nmi_of, reset_of, step_of};
use crate::ppu::{PpuView, beam_position, dots_per_frame, lemma_tick_timing, tick_result};

verus! {

/// The console: CPU and bus (RAM, PPU, APU, controller, cartridge), and the
/// audio levels produced so far.
pub struct Nes {
    pub cpu: Cpu,
    pub bus: Bus,
    /// Channel output levels after each APU cycle, oldest first, kept until taken.
    pub audio_levels: Vec<(u8, u8, u8, u8)>,
}

/// One PPU dot: the PPU ticks; if it raised NMI, the request is cleared and the
/// CPU takes the interrupt.
pub open spec fn dot(c: Cpu, b: BusView) -> (Cpu, BusView) {
    let p = tick_result(b.ppu).0;
    if p.nmi_triggered {
        nmi_of(c, BusView { ppu: PpuView { nmi_triggered: false, ..p }, ..b })
    } else {
        (c, BusView { ppu: p, ..b })
    }
}

/// `n` PPU dots in a row.
pub open spec fn run_dots(c: Cpu, b: BusView, n: nat) -> (Cpu, BusView)
    decreases n,
{
    if n == 0 {
        (c, b)
    } else {
        let (c1, b1) = run_dots(c, b, (n - 1) as nat);
        dot(c1, b1)
    }
}

/// One console step: one CPU instruction, then one APU cycle and three PPU dots
/// per CPU cycle it took.
pub open spec fn console_step(c: Cpu, b: BusView) -> (Cpu, BusView, u8) {
    let (c1, b1, n) = step_of(c, b);
    let b2 = BusView { apu: apu_run(b1.apu, n as nat), ..b1 };
    let (c3, b3) = run_dots(c1, b2, (3 * n) as nat);
    (c3, b3, n)
}

/// The APU output levels, one per cycle, of a console step.
pub open spec fn step_levels(c: Cpu, b: BusView) -> Seq<(u8, u8, u8, u8)> {
    let (c1, b1, n) = step_of(c, b);
    apu_trace(b1.apu, n as nat)
}

/// `k` console steps in a row, with the CPU cycles they took and the APU output
/// levels they produced.
pub open spec fn console_steps(c: Cpu, b: BusView, k: nat) -> (
    Cpu,
    BusView,
    int,
    Seq<(u8, u8, u8, u8)>,
)
    decreases k,
{
    if k == 0 {
        (c, b, 0, Seq::empty())
    } else {
        let (c1, b1, t, l) = console_steps(c, b, (k - 1) as nat);
        let (c2, b2, n) = console_step(c1, b1);
        (c2, b2, t + n, l + step_levels(c1, b1))
    }
}

/// Head-room on the cycle counter that running one frame needs.
pub open spec fn frame_headroom() -> int {
    1_000_000
}

impl Nes {
    /// The recorded audio levels are those of `other`.
    pub open spec fn same_audio(&self, other: &Nes) -> bool {
        self.audio_levels@ == other.audio_levels@
    }

    /// The bus can be read and written, and the PPU and the APU can run.
    pub open spec fn wf(&self) -> bool {
        &&& self.bus@.wf()
        &&& self.bus.ppu@.wf()
    }

    pub fn new() -> (n: Self)
        ensures
            n.wf(),
            n.cpu == (Cpu { a: 0, x: 0, y: 0, sp: 0xFD, pc: 0, status: 0x24, cycles: 0 }),
            n.bus@.ram == Seq::new(2048, |i: int| 0u8),
            n.bus.cartridge is None,
            n.bus@.ppu == crate::ppu::power_on(),
            n.bus.controller1 == 0,
            n.bus.apu == Apu::power_on(),
            n.audio_levels@ == Seq::<(u8, u8, u8, u8)>::empty(),
    {
        Nes { cpu: Cpu::new(), bus: Bus::new(), audio_levels: Vec::new() }
    }

    /// Reads the reset vector at $FFFC/$FFFD and initialises the registers.
    pub fn reset(&mut self)
        requires
            old(self).wf(),
            old(self).cpu.cycles <= u64::MAX - 8,
        ensures
            final(self).wf(),
            (final(self).cpu, final(self).bus@) === reset_of(old(self).cpu, old(self).bus@),
            final(self).same_audio(old(self)),
    {
        self.cpu.reset(&mut self.bus);
    }

    /// Runs one PPU dot and, when it raised NMI, the interrupt.
    fn dot(&mut self)
        requires
            old(self).wf(),
            old(self).cpu.cycles <= u64::MAX - 7,
        ensures
            final(self).wf(),
            (final(self).cpu, final(self).bus@) === dot(old(self).cpu, old(self).bus@),
            beam_position(final(self).bus@.ppu) == (beam_position(old(self).bus@.ppu) + 1)
                % dots_per_frame(),
            final(self).bus.ppu.frame == if beam_position(old(self).bus@.ppu) == dots_per_frame()
                - 1 {
                ((old(self).bus.ppu.frame + 1) % 0x1_0000_0000_0000_0000) as u64
            } else {
                old(self).bus.ppu.frame
            },
            old(self).cpu.cycles <= final(self).cpu.cycles <= old(self).cpu.cycles + 7,
            final(self).same_audio(old(self)),
    {
        proof {
            lemma_tick_timing(self.bus.ppu@);
            crate::ppu::lemma_wf_can_tick(self.bus.ppu@);
        }
        self.bus.ppu.tick();
        if self.bus.ppu.nmi_triggered {
            self.bus.ppu.nmi_triggered = false;
            self.cpu.nmi(&mut self.bus);
        }
    }

    /// Clocks the APU for `n` CPU cycles, recording the output levels after each.
    fn clock_apu(&mut self, n: u8)
        requires
            old(self).bus@.wf(),
        ensures
            final(self).bus@.wf(),
            final(self).bus@ === (BusView { apu: apu_run(old(self).bus.apu, n as nat), ..old(self).bus@ }),
            final(self).audio_levels@ == old(self).audio_levels@ + apu_trace(old(self).bus.apu, n as nat),
            final(self).cpu == old(self).cpu,
    {
        let ghost a0 = self.bus.apu;
        let ghost l0 = self.audio_levels@;
        let mut i: u8 = 0;
        while i < n
            invariant
                i <= n,
                self.bus@.wf(),
                self.bus@ === (BusView { apu: apu_run(a0, i as nat), ..old(self).bus@ }),
                self.audio_levels@ == l0 + apu_trace(a0, i as nat),
                self.cpu == old(self).cpu,
            decreases n - i,
        {
            self.bus.apu.tick();
            let levels = self.bus.apu.levels();
            self.audio_levels.push(levels);
            i = i + 1;
            proof {
                assert(self.audio_levels@ =~= l0 + apu_trace(a0, i as nat));
            }
        }
    }

    /// Hands out the output levels recorded since the last call and clears them.
    pub fn take_audio_levels(&mut self) -> (r: Vec<(u8, u8, u8, u8)>)
        ensures
            r@ == old(self).audio_levels@,
            final(self).audio_levels@ == Seq::<(u8, u8, u8, u8)>::empty(),
            final(self).cpu == old(self).cpu,
            final(self).bus@ === old(self).bus@,
    {
        let mut r: Vec<(u8, u8, u8, u8)> = Vec::new();
        std::mem::swap(&mut r, &mut self.audio_levels);
        r
    }

    /// Executes one instruction, runs the APU for as many cycles as it took and the
    /// PPU for three dots per cycle, taking NMI when the PPU raises it. Returns the
    /// CPU cycles.
    pub fn step(&mut self) -> (n: u8)
        requires
            old(self).wf(),
            old(self).cpu.cycles <= u64::MAX - 200,
        ensures
            final(self).wf(),
            (final(self).cpu, final(self).bus@, n) === console_step(old(self).cpu, old(self).bus@),
            2 <= n <= 8,
            old(self).cpu.cycles + n <= final(self).cpu.cycles <= old(self).cpu.cycles + 22 * n,
            beam_position(old(self).bus@.ppu) + 3 * n < dots_per_frame() ==> final(self).bus.ppu.frame
                == old(self).bus.ppu.frame && beam_position(final(self).bus@.ppu) == beam_position(
                old(self).bus@.ppu) + 3 * n,
            beam_position(old(self).bus@.ppu) + 3 * n >= dots_per_frame() ==> final(self).bus.ppu.frame
                != old(self).bus.ppu.frame,
            final(self).audio_levels@ == old(self).audio_levels@ + step_levels(
                old(self).cpu,
                old(self).bus@,
            ),
    {
        let ghost c0 = self.cpu;
        let ghost b0 = self.bus@;
        let cpu_cycles = self.cpu.step(&mut self.bus);
        let ghost b1s = self.bus@;
        self.clock_apu(cpu_cycles);
        let ghost l1 = self.audio_levels@;
        let ghost c1 = self.cpu;
        let ghost b1 = self.bus@;
        let ghost pos0 = beam_position(b0.ppu);
        let ghost f0 = b0.ppu.frame;
        let dots = cpu_cycles as u32 * 3;
        let mut i: u32 = 0;
        while i < dots
            invariant
                self.wf(),
                dots == 3 * cpu_cycles,
                2 <= cpu_cycles <= 8,
                i <= dots,
                (c1, b1s, cpu_cycles) === step_of(c0, b0),
                b1 === (BusView { apu: apu_run(b1s.apu, cpu_cycles as nat), ..b1s }),
                c1.cycles == c0.cycles + cpu_cycles,
                self.audio_levels@ == l1,
                c0.cycles <= u64::MAX - 200,
                (self.cpu, self.bus@) === run_dots(c1, b1, i as nat),
                c1.cycles <= self.cpu.cycles <= c1.cycles + 7 * i,
                pos0 == beam_position(b1.ppu),
                f0 == b1.ppu.frame,
                0 <= pos0 < dots_per_frame(),
                pos0 + i < dots_per_frame() ==> self.bus.ppu.frame == f0 && beam_position(
                    self.bus@.ppu) == pos0 + i,
                pos0 + i >= dots_per_frame() ==> self.bus.ppu.frame != f0 && beam_position(
                    self.bus@.ppu) == pos0 + i - dots_per_frame(),
            decreases dots - i,
        {
            proof {
                assert(beam_position(self.bus@.ppu) >= 0);
            }
            self.dot();
            i = i + 1;
            proof {
                assert(run_dots(c1, b1, i as nat) == dot(run_dots(c1, b1, (i - 1) as nat).0, run_dots(c1, b1, (i - 1) as nat).1));
                if pos0 + i - 1 < dots_per_frame() {
                    if pos0 + i < dots_per_frame() {
                        vstd::arithmetic::div_mod::lemma_small_mod((pos0 + i) as nat, dots_per_frame() as nat);
                    } else {
                        vstd::arithmetic::div_mod::lemma_mod_self_0(dots_per_frame());
                    }
                } else {
                    vstd::arithmetic::div_mod::lemma_small_mod((pos0 + i - dots_per_frame()) as nat, dots_per_frame() as nat);
                }
            }
        }
        cpu_cycles
    }

    /// Runs console steps until the PPU completes the current frame.
    /// Returns the CPU cycles they took, which the APU ran too: their PPU dots
    /// cover the rest of the frame, overshooting by less than one instruction.
    #[verifier::rlimit(30)]
    pub fn step_frame(&mut self) -> (total: u64)
        requires
            old(self).wf(),
            old(self).cpu.cycles <= u64::MAX - frame_headroom(),
        ensures
            final(self).wf(),
            final(self).bus.ppu.frame != old(self).bus.ppu.frame,
            exists|k: nat|
                {
                    &&& (
                        final(self).cpu,
                        final(self).bus@,
                        total as int,
                        final(self).audio_levels@.skip(old(self).audio_levels@.len() as int),
                    ) === console_steps(old(self).cpu, old(self).bus@, k)
                    &&& forall|j: nat|
                        j < k ==> (#[trigger] console_steps(old(self).cpu, old(self).bus@, j)).1.ppu.frame
                            == old(self).bus.ppu.frame
                },
            final(self).audio_levels@.len() >= old(self).audio_levels@.len(),
            final(self).audio_levels@.take(old(self).audio_levels@.len() as int)
                == old(self).audio_levels@,
            dots_per_frame() - beam_position(old(self).bus@.ppu) <= 3 * total,
            3 * total < dots_per_frame() - beam_position(old(self).bus@.ppu) + 24,
    {
        let ghost c0 = self.cpu;
        let ghost b0 = self.bus@;
        let ghost l0 = self.audio_levels@;
        let frame = self.bus.ppu.frame;
        let mut total: u64 = 0;
        let ghost mut k: nat = 0;
        while self.bus.ppu.frame == frame
            invariant
                self.wf(),
                frame == b0.ppu.frame,
                c0.cycles <= u64::MAX - frame_headroom(),
                0 <= beam_position(b0.ppu) < dots_per_frame(),
                (self.cpu, self.bus@, total as int, self.audio_levels@.skip(l0.len() as int))
                    === console_steps(c0, b0, k),
                self.audio_levels@.len() >= l0.len(),
                self.audio_levels@.take(l0.len() as int) == l0,
                forall|j: nat| j < k ==> (#[trigger] console_steps(c0, b0, j)).1.ppu.frame == frame,
                c0.cycles + total <= self.cpu.cycles,
                self.bus.ppu.frame == frame ==> beam_position(self.bus@.ppu) == beam_position(b0.ppu)
                    + 3 * total,
                self.bus.ppu.frame != frame ==> dots_per_frame() - beam_position(b0.ppu) <= 3 * total
                    < dots_per_frame() - beam_position(b0.ppu) + 24,
                self.bus.ppu.frame == frame ==> self.cpu.cycles + 10 * (dots_per_frame()
                    - beam_position(self.bus@.ppu)) <= c0.cycles + 10 * (dots_per_frame()
                    - beam_position(b0.ppu)),
            decreases
                (if self.bus.ppu.frame == frame {
                    dots_per_frame() - beam_position(self.bus@.ppu)
                } else {
                    0
                }),
        {
            proof {
                assert(0 <= beam_position(self.bus@.ppu) < dots_per_frame()) by (nonlinear_arith)
                    requires
                        0 <= self.bus.ppu.scanline < 262,
                        self.bus.ppu.cycle < 341,
                ;
            }
            let ghost lv = self.audio_levels@;
            let ghost cs = self.cpu;
            let ghost bs = self.bus@;
            let n = self.step();
            total = total + n as u64;
            proof {
                let sl = step_levels(cs, bs);
                assert(self.audio_levels@ == lv + sl);
                assert(self.audio_levels@.skip(l0.len() as int) =~= lv.skip(l0.len() as int) + sl);
                assert(self.audio_levels@.take(l0.len() as int) =~= lv.take(l0.len() as int));
                k = k + 1;
                assert(0 <= beam_position(self.bus@.ppu)) by (nonlinear_arith)
                    requires
                        0 <= self.bus.ppu.scanline,
                ;
            }
        }
        total
    }

    /// The current picture, RGB, 256 x 240 pixels.
    pub fn get_framebuffer(&self) -> (fb: Vec<u8>)
        ensures
            fb@ == self.bus.ppu.framebuffer@,
    {
        let fb = self.bus.ppu.framebuffer.clone();
        assert(fb@ =~= self.bus.ppu.framebuffer@);
        fb
    }

    pub fn get_pc(&self) -> (r: u16)
        ensures
            r == self.cpu.pc,
    {
        self.cpu.pc
    }

    pub fn get_a(&self) -> (r: u8)
        ensures
            r == self.cpu.a,
    {
        self.cpu.a
    }

    pub fn get_x(&self) -> (r: u8)
        ensures
            r == self.cpu.x,
    {
        self.cpu.x
    }

    pub fn get_y(&self) -> (r: u8)
        ensures
            r == self.cpu.y,
    {
        self.cpu.y
    }

    pub fn get_sp(&self) -> (r: u8)
        ensures
            r == self.cpu.sp,
    {
        self.cpu.sp
    }

    pub fn get_status(&self) -> (r: u8)
        ensures
            r == self.cpu.status,
    {
        self.cpu.status
    }

    pub fn get_cycles(&self) -> (r: u64)
        ensures
            r == self.cpu.cycles,
    {
        self.cpu.cycles
    }

    /// A CPU-side write to the memory map.
    pub fn mem_write(&mut self, addr: u16, value: u8)
        requires
            old(self).wf(),
        ensures
            final(self).wf(),
            final(self).cpu == old(self).cpu,
            final(self).bus@ === bus_write(old(self).bus@, addr, value),
            final(self).same_audio(old(self)),
    {
        self.bus.write(addr, value);
    }

    /// A CPU-side read of the memory map (with the side effects of reading PPU registers).
    pub fn mem_read(&mut self, addr: u16) -> (r: u8)
        requires
            old(self).wf(),
        ensures
            final(self).wf(),
            final(self).cpu == old(self).cpu,
            (final(self).bus@, r) === bus_read(old(self).bus@, addr),
            final(self).same_audio(old(self)),
    {
        self.bus.read(addr)
    }

    pub fn set_pc(&mut self, addr: u16)
        ensures
            final(self).cpu == (Cpu { pc: addr, ..old(self).cpu }),
            final(self).bus@ === old(self).bus@,
            final(self).same_audio(old(self)),
    {
        self.cpu.pc = addr;
    }

    /// Sets the buttons held on the first controller.
    pub fn set_input(&mut self, buttons: u8)
        ensures
            final(self).cpu == old(self).cpu,
            final(self).bus@ === (BusView { controller1: buttons, ..old(self).bus@ }),
            final(self).same_audio(old(self)),
    {
        self.bus.controller1 = buttons;
    }

    /// Loads an iNES image: the cartridge goes into the slot, the PPU gets its
    /// pattern memory, CHR banking and mirroring, and the CPU is reset. A refused image leaves the
    /// console unchanged.
    pub fn load_rom_bytes(&mut self, data: &[u8]) -> (r: Result<(), String>)
        requires
            old(self).wf(),
            old(self).cpu.cycles <= u64::MAX - 8,
        ensures
            final(self).wf(),
            final(self).same_audio(old(self)),
            match rom_error(data@) {
                Some(e) => {
                    &&& r matches Err(s) && s@ == rom_error_text(e)
                    &&& final(self).cpu == old(self).cpu
                    &&& final(self).bus@ === old(self).bus@
                },
                None => {
                    &&& r is Ok
                    &&& final(self).bus.cartridge matches Some(c) && c.is_loaded_from(data@)
                        && (final(self).cpu, final(self).bus@) === reset_of(
                        old(self).cpu,
                        BusView {
                            cartridge: Some(c),
                            ppu: ppu_with_cartridge(old(self).bus@.ppu, c),
                            ..old(self).bus@
                        },
                    )
                },
            },
    {
        let cart = match Cartridge::from_bytes(data) {
            Ok(c) => c,
            Err(e) => return Err(e),
        };
        let chr = cart.chr_rom.clone();
        assert(chr@ =~= cart.chr_rom@);
        let chr_ram = cart.chr_ram.clone();
        assert(chr_ram@ =~= cart.chr_ram@);
        self.bus.ppu.chr_rom = chr;
        self.bus.ppu.chr_ram = chr_ram;
        self.bus.ppu.chr_mapper = cart.mapper;
        self.bus.ppu.chr_control = cart.mmc1_control;
        self.bus.ppu.chr_bank0 = cart.mmc1_chr0;
        self.bus.ppu.chr_bank1 = cart.mmc1_chr1;
        self.bus.ppu.mirroring = cart.mirroring;
        self.bus.cartridge = Some(cart);
        proof {
            let c = self.bus.cartridge->0;
            assert(c.prg_rom@.len() == crate::cartridge::prg_size(data@));
            assert(self.bus@ === BusView {
                cartridge: Some(c),
                ppu: ppu_with_cartridge(old(self).bus@.ppu, c),
                ..old(self).bus@
            });
        }
        self.cpu.reset(&mut self.bus);
        Ok(())
    }
}

} // verus!
