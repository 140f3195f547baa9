# nes_core

The core of a Nintendo Entertainment System emulator, written in Verus: every
component states its behaviour in `requires`/`ensures` contracts over
mathematical models, and Verus proves the code against them.

- `src/cpu.rs`, `src/opcodes.rs`: the MOS 6502 (official and the common
  unofficial opcodes), modelled by `step_of`, `nmi_of` and `reset_of`.
- `src/bus.rs`: the CPU memory map: 2 KiB RAM mirrored, PPU registers, OAM DMA
  ($4014), the APU registers, the controller's serial port ($4016) and the
  cartridge, whose mapper registers take writes to $8000-$FFFF.
- `src/ppu.rs`: PPU registers, pattern (CHR-ROM/CHR-RAM with MMC1 banking),
  nametable and palette memory, dot timing, background rendering with scroll,
  8x8 sprites with priority and Sprite 0 Hit.
- `src/apu.rs`: the two pulse channels, triangle, noise and the frame sequencer,
  producing integer output levels per CPU cycle.
- `src/cartridge.rs`: the iNES parser and mappers 0 (NROM), 1 (MMC1) and 2 (UxROM).
- `src/lib.rs`: `Nes`, the console that ties them together (one instruction,
  its APU cycles and three PPU dots per cycle; whole frames).
- `app/`: Python bindings (PyO3), file loading, and the floating-point audio
  sample clock and mixer that turn the APU's levels into samples.
- `tests/`: scenario tests for each component.

Laws such as RAM mirroring, read-after-write through PPUDATA, stack
push/pull, JSR/RTS, PHP/PLP, BRK/RTI and NMI/RTI round trips, the controller's
serial protocol, the MMC1 serial load, the APU frame schedule and the frame
timing are stated and proved as public proof functions next to the code they
speak of.
