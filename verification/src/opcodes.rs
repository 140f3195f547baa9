use vstd::prelude::*;

verus! {

/// Carry.
pub const FLAG_C: u8 = 0x01;
/// Zero.
pub const FLAG_Z: u8 = 0x02;
/// Interrupt disable.
pub const FLAG_I: u8 = 0x04;
/// Decimal (stored, but the NES CPU has no decimal mode).
pub const FLAG_D: u8 = 0x08;
/// Break: only present in pushed copies of the status register.
pub const FLAG_B: u8 = 0x10;
/// Unused bit, always read as set.
pub const FLAG_U: u8 = 0x20;
/// Overflow.
pub const FLAG_V: u8 = 0x40;
/// Negative.
pub const FLAG_N: u8 = 0x80;

/// How an instruction finds its operand.
#[derive(Clone, Copy, Debug, PartialEq, Eq, Structural)]
pub enum AddrMode {
    Imp,
    Acc,
    Imm,
    Zp,
    Zpx,
    Zpy,
    Abs,
    Abx,
    Aby,
    Ind,
    Izx,
    Izy,
    Rel,
}

/// A CPU register that loads, stores, compares and counters name.
#[derive(Clone, Copy, Debug, PartialEq, Eq, Structural)]
pub enum Reg {
    A,
    X,
    Y,
}

/// The four shift/rotate operations.
#[derive(Clone, Copy, Debug, PartialEq, Eq, Structural)]
pub enum Shift {
    Asl,
    Lsr,
    Rol,
    Ror,
}

/// What an instruction does with its operand (official and unofficial opcodes).
#[derive(Clone, Copy, Debug, PartialEq, Eq, Structural)]
pub enum Op {
    Load(Reg),
    Store(Reg),
    Tax,
    Tay,
    Txa,
    Tya,
    Tsx,
    Txs,
    Pha,
    Pla,
    Php,
    Plp,
    And,
    Ora,
    Eor,
    Adc,
    Sbc,
    Compare(Reg),
    Inc,
    Dec,
    IncReg(Reg),
    DecReg(Reg),
    ShiftAcc(Shift),
    ShiftMem(Shift),
    Jmp,
    Jsr,
    Rts,
    /// Taken when the flag's state equals the boolean.
    Branch(u8, bool),
    /// Sets (true) or clears (false) the flag.
    SetFlag(u8, bool),
    Bit,
    Brk,
    Rti,
    Nop,
    Lax,
    Sax,
    Dcp,
    Isc,
    Rla,
    Slo,
    Sre,
    Rra,
}

/// A decoded opcode: operation, addressing mode, base cycle count and whether
/// crossing a page while indexing costs one more cycle.
#[derive(Clone, Copy, Debug, PartialEq, Eq, Structural)]
pub struct Instr {
    pub op: Op,
    pub mode: AddrMode,
    pub cycles: u8,
    pub page_penalty: bool,
}

/// The opcode table. Opcodes it does not list behave as a two-cycle NOP.
#[verifier::opaque]
pub open spec fn decode(opcode: u8) -> Instr {
    match opcode {
        0xA9 => Instr { op: Op::Load(Reg::A), mode: AddrMode::Imm, cycles: 2, page_penalty: false },
        0xA5 => Instr { op: Op::Load(Reg::A), mode: AddrMode::Zp, cycles: 3, page_penalty: false },
        0xB5 => Instr { op: Op::Load(Reg::A), mode: AddrMode::Zpx, cycles: 4, page_penalty: false },
        0xAD => Instr { op: Op::Load(Reg::A), mode: AddrMode::Abs, cycles: 4, page_penalty: false },
        0xBD => Instr { op: Op::Load(Reg::A), mode: AddrMode::Abx, cycles: 4, page_penalty: true },
        0xB9 => Instr { op: Op::Load(Reg::A), mode: AddrMode::Aby, cycles: 4, page_penalty: true },
        0xA1 => Instr { op: Op::Load(Reg::A), mode: AddrMode::Izx, cycles: 6, page_penalty: false },
        0xB1 => Instr { op: Op::Load(Reg::A), mode: AddrMode::Izy, cycles: 5, page_penalty: true },
        0xA2 => Instr { op: Op::Load(Reg::X), mode: AddrMode::Imm, cycles: 2, page_penalty: false },
        0xA6 => Instr { op: Op::Load(Reg::X), mode: AddrMode::Zp, cycles: 3, page_penalty: false },
        0xB6 => Instr { op: Op::Load(Reg::X), mode: AddrMode::Zpy, cycles: 4, page_penalty: false },
        0xAE => Instr { op: Op::Load(Reg::X), mode: AddrMode::Abs, cycles: 4, page_penalty: false },
        0xBE => Instr { op: Op::Load(Reg::X), mode: AddrMode::Aby, cycles: 4, page_penalty: true },
        0xA0 => Instr { op: Op::Load(Reg::Y), mode: AddrMode::Imm, cycles: 2, page_penalty: false },
        0xA4 => Instr { op: Op::Load(Reg::Y), mode: AddrMode::Zp, cycles: 3, page_penalty: false },
        0xB4 => Instr { op: Op::Load(Reg::Y), mode: AddrMode::Zpx, cycles: 4, page_penalty: false },
        0xAC => Instr { op: Op::Load(Reg::Y), mode: AddrMode::Abs, cycles: 4, page_penalty: false },
        0xBC => Instr { op: Op::Load(Reg::Y), mode: AddrMode::Abx, cycles: 4, page_penalty: true },
        0x85 => Instr { op: Op::Store(Reg::A), mode: AddrMode::Zp, cycles: 3, page_penalty: false },
        0x95 => Instr { op: Op::Store(Reg::A), mode: AddrMode::Zpx, cycles: 4, page_penalty: false },
        0x8D => Instr { op: Op::Store(Reg::A), mode: AddrMode::Abs, cycles: 4, page_penalty: false },
        0x9D => Instr { op: Op::Store(Reg::A), mode: AddrMode::Abx, cycles: 5, page_penalty: false },
        0x99 => Instr { op: Op::Store(Reg::A), mode: AddrMode::Aby, cycles: 5, page_penalty: false },
        0x81 => Instr { op: Op::Store(Reg::A), mode: AddrMode::Izx, cycles: 6, page_penalty: false },
        0x91 => Instr { op: Op::Store(Reg::A), mode: AddrMode::Izy, cycles: 6, page_penalty: false },
        0x86 => Instr { op: Op::Store(Reg::X), mode: AddrMode::Zp, cycles: 3, page_penalty: false },
        0x96 => Instr { op: Op::Store(Reg::X), mode: AddrMode::Zpy, cycles: 4, page_penalty: false },
        0x8E => Instr { op: Op::Store(Reg::X), mode: AddrMode::Abs, cycles: 4, page_penalty: false },
        0x84 => Instr { op: Op::Store(Reg::Y), mode: AddrMode::Zp, cycles: 3, page_penalty: false },
        0x94 => Instr { op: Op::Store(Reg::Y), mode: AddrMode::Zpx, cycles: 4, page_penalty: false },
        0x8C => Instr { op: Op::Store(Reg::Y), mode: AddrMode::Abs, cycles: 4, page_penalty: false },
        0xAA => Instr { op: Op::Tax, mode: AddrMode::Imp, cycles: 2, page_penalty: false },
        0xA8 => Instr { op: Op::Tay, mode: AddrMode::Imp, cycles: 2, page_penalty: false },
        0x8A => Instr { op: Op::Txa, mode: AddrMode::Imp, cycles: 2, page_penalty: false },
        0x98 => Instr { op: Op::Tya, mode: AddrMode::Imp, cycles: 2, page_penalty: false },
        0xBA => Instr { op: Op::Tsx, mode: AddrMode::Imp, cycles: 2, page_penalty: false },
        0x9A => Instr { op: Op::Txs, mode: AddrMode::Imp, cycles: 2, page_penalty: false },
        0x48 => Instr { op: Op::Pha, mode: AddrMode::Imp, cycles: 3, page_penalty: false },
        0x68 => Instr { op: Op::Pla, mode: AddrMode::Imp, cycles: 4, page_penalty: false },
        0x08 => Instr { op: Op::Php, mode: AddrMode::Imp, cycles: 3, page_penalty: false },
        0x28 => Instr { op: Op::Plp, mode: AddrMode::Imp, cycles: 4, page_penalty: false },
        0x29 => Instr { op: Op::And, mode: AddrMode::Imm, cycles: 2, page_penalty: false },
        0x25 => Instr { op: Op::And, mode: AddrMode::Zp, cycles: 3, page_penalty: false },
        0x35 => Instr { op: Op::And, mode: AddrMode::Zpx, cycles: 4, page_penalty: false },
        0x2D => Instr { op: Op::And, mode: AddrMode::Abs, cycles: 4, page_penalty: false },
        0x3D => Instr { op: Op::And, mode: AddrMode::Abx, cycles: 4, page_penalty: true },
        0x39 => Instr { op: Op::And, mode: AddrMode::Aby, cycles: 4, page_penalty: true },
        0x21 => Instr { op: Op::And, mode: AddrMode::Izx, cycles: 6, page_penalty: false },
        0x31 => Instr { op: Op::And, mode: AddrMode::Izy, cycles: 5, page_penalty: true },
        0x09 => Instr { op: Op::Ora, mode: AddrMode::Imm, cycles: 2, page_penalty: false },
        0x05 => Instr { op: Op::Ora, mode: AddrMode::Zp, cycles: 3, page_penalty: false },
        0x15 => Instr { op: Op::Ora, mode: AddrMode::Zpx, cycles: 4, page_penalty: false },
        0x0D => Instr { op: Op::Ora, mode: AddrMode::Abs, cycles: 4, page_penalty: false },
        0x1D => Instr { op: Op::Ora, mode: AddrMode::Abx, cycles: 4, page_penalty: true },
        0x19 => Instr { op: Op::Ora, mode: AddrMode::Aby, cycles: 4, page_penalty: true },
        0x01 => Instr { op: Op::Ora, mode: AddrMode::Izx, cycles: 6, page_penalty: false },
        0x11 => Instr { op: Op::Ora, mode: AddrMode::Izy, cycles: 5, page_penalty: true },
        0x49 => Instr { op: Op::Eor, mode: AddrMode::Imm, cycles: 2, page_penalty: false },
        0x45 => Instr { op: Op::Eor, mode: AddrMode::Zp, cycles: 3, page_penalty: false },
        0x55 => Instr { op: Op::Eor, mode: AddrMode::Zpx, cycles: 4, page_penalty: false },
        0x4D => Instr { op: Op::Eor, mode: AddrMode::Abs, cycles: 4, page_penalty: false },
        0x5D => Instr { op: Op::Eor, mode: AddrMode::Abx, cycles: 4, page_penalty: true },
        0x59 => Instr { op: Op::Eor, mode: AddrMode::Aby, cycles: 4, page_penalty: true },
        0x41 => Instr { op: Op::Eor, mode: AddrMode::Izx, cycles: 6, page_penalty: false },
        0x51 => Instr { op: Op::Eor, mode: AddrMode::Izy, cycles: 5, page_penalty: true },
        0x69 => Instr { op: Op::Adc, mode: AddrMode::Imm, cycles: 2, page_penalty: false },
        0x65 => Instr { op: Op::Adc, mode: AddrMode::Zp, cycles: 3, page_penalty: false },
        0x75 => Instr { op: Op::Adc, mode: AddrMode::Zpx, cycles: 4, page_penalty: false },
        0x6D => Instr { op: Op::Adc, mode: AddrMode::Abs, cycles: 4, page_penalty: false },
        0x7D => Instr { op: Op::Adc, mode: AddrMode::Abx, cycles: 4, page_penalty: true },
        0x79 => Instr { op: Op::Adc, mode: AddrMode::Aby, cycles: 4, page_penalty: true },
        0x61 => Instr { op: Op::Adc, mode: AddrMode::Izx, cycles: 6, page_penalty: false },
        0x71 => Instr { op: Op::Adc, mode: AddrMode::Izy, cycles: 5, page_penalty: true },
        0xE9 => Instr { op: Op::Sbc, mode: AddrMode::Imm, cycles: 2, page_penalty: false },
        0xE5 => Instr { op: Op::Sbc, mode: AddrMode::Zp, cycles: 3, page_penalty: false },
        0xF5 => Instr { op: Op::Sbc, mode: AddrMode::Zpx, cycles: 4, page_penalty: false },
        0xED => Instr { op: Op::Sbc, mode: AddrMode::Abs, cycles: 4, page_penalty: false },
        0xFD => Instr { op: Op::Sbc, mode: AddrMode::Abx, cycles: 4, page_penalty: true },
        0xF9 => Instr { op: Op::Sbc, mode: AddrMode::Aby, cycles: 4, page_penalty: true },
        0xE1 => Instr { op: Op::Sbc, mode: AddrMode::Izx, cycles: 6, page_penalty: false },
        0xF1 => Instr { op: Op::Sbc, mode: AddrMode::Izy, cycles: 5, page_penalty: true },
        0xC9 => Instr { op: Op::Compare(Reg::A), mode: AddrMode::Imm, cycles: 2, page_penalty: false },
        0xC5 => Instr { op: Op::Compare(Reg::A), mode: AddrMode::Zp, cycles: 3, page_penalty: false },
        0xD5 => Instr { op: Op::Compare(Reg::A), mode: AddrMode::Zpx, cycles: 4, page_penalty: false },
        0xCD => Instr { op: Op::Compare(Reg::A), mode: AddrMode::Abs, cycles: 4, page_penalty: false },
        0xDD => Instr { op: Op::Compare(Reg::A), mode: AddrMode::Abx, cycles: 4, page_penalty: true },
        0xD9 => Instr { op: Op::Compare(Reg::A), mode: AddrMode::Aby, cycles: 4, page_penalty: true },
        0xC1 => Instr { op: Op::Compare(Reg::A), mode: AddrMode::Izx, cycles: 6, page_penalty: false },
        0xD1 => Instr { op: Op::Compare(Reg::A), mode: AddrMode::Izy, cycles: 5, page_penalty: true },
        0xE0 => Instr { op: Op::Compare(Reg::X), mode: AddrMode::Imm, cycles: 2, page_penalty: false },
        0xE4 => Instr { op: Op::Compare(Reg::X), mode: AddrMode::Zp, cycles: 3, page_penalty: false },
        0xEC => Instr { op: Op::Compare(Reg::X), mode: AddrMode::Abs, cycles: 4, page_penalty: false },
        0xC0 => Instr { op: Op::Compare(Reg::Y), mode: AddrMode::Imm, cycles: 2, page_penalty: false },
        0xC4 => Instr { op: Op::Compare(Reg::Y), mode: AddrMode::Zp, cycles: 3, page_penalty: false },
        0xCC => Instr { op: Op::Compare(Reg::Y), mode: AddrMode::Abs, cycles: 4, page_penalty: false },
        0xE6 => Instr { op: Op::Inc, mode: AddrMode::Zp, cycles: 5, page_penalty: false },
        0xF6 => Instr { op: Op::Inc, mode: AddrMode::Zpx, cycles: 6, page_penalty: false },
        0xEE => Instr { op: Op::Inc, mode: AddrMode::Abs, cycles: 6, page_penalty: false },
        0xFE => Instr { op: Op::Inc, mode: AddrMode::Abx, cycles: 7, page_penalty: false },
        0xC6 => Instr { op: Op::Dec, mode: AddrMode::Zp, cycles: 5, page_penalty: false },
        0xD6 => Instr { op: Op::Dec, mode: AddrMode::Zpx, cycles: 6, page_penalty: false },
        0xCE => Instr { op: Op::Dec, mode: AddrMode::Abs, cycles: 6, page_penalty: false },
        0xDE => Instr { op: Op::Dec, mode: AddrMode::Abx, cycles: 7, page_penalty: false },
        0xE8 => Instr { op: Op::IncReg(Reg::X), mode: AddrMode::Imp, cycles: 2, page_penalty: false },
        0xC8 => Instr { op: Op::IncReg(Reg::Y), mode: AddrMode::Imp, cycles: 2, page_penalty: false },
        0xCA => Instr { op: Op::DecReg(Reg::X), mode: AddrMode::Imp, cycles: 2, page_penalty: false },
        0x88 => Instr { op: Op::DecReg(Reg::Y), mode: AddrMode::Imp, cycles: 2, page_penalty: false },
        0x0A => Instr { op: Op::ShiftAcc(Shift::Asl), mode: AddrMode::Acc, cycles: 2, page_penalty: false },
        0x06 => Instr { op: Op::ShiftMem(Shift::Asl), mode: AddrMode::Zp, cycles: 5, page_penalty: false },
        0x16 => Instr { op: Op::ShiftMem(Shift::Asl), mode: AddrMode::Zpx, cycles: 6, page_penalty: false },
        0x0E => Instr { op: Op::ShiftMem(Shift::Asl), mode: AddrMode::Abs, cycles: 6, page_penalty: false },
        0x1E => Instr { op: Op::ShiftMem(Shift::Asl), mode: AddrMode::Abx, cycles: 7, page_penalty: false },
        0x4A => Instr { op: Op::ShiftAcc(Shift::Lsr), mode: AddrMode::Acc, cycles: 2, page_penalty: false },
        0x46 => Instr { op: Op::ShiftMem(Shift::Lsr), mode: AddrMode::Zp, cycles: 5, page_penalty: false },
        0x56 => Instr { op: Op::ShiftMem(Shift::Lsr), mode: AddrMode::Zpx, cycles: 6, page_penalty: false },
        0x4E => Instr { op: Op::ShiftMem(Shift::Lsr), mode: AddrMode::Abs, cycles: 6, page_penalty: false },
        0x5E => Instr { op: Op::ShiftMem(Shift::Lsr), mode: AddrMode::Abx, cycles: 7, page_penalty: false },
        0x2A => Instr { op: Op::ShiftAcc(Shift::Rol), mode: AddrMode::Acc, cycles: 2, page_penalty: false },
        0x26 => Instr { op: Op::ShiftMem(Shift::Rol), mode: AddrMode::Zp, cycles: 5, page_penalty: false },
        0x36 => Instr { op: Op::ShiftMem(Shift::Rol), mode: AddrMode::Zpx, cycles: 6, page_penalty: false },
        0x2E => Instr { op: Op::ShiftMem(Shift::Rol), mode: AddrMode::Abs, cycles: 6, page_penalty: false },
        0x3E => Instr { op: Op::ShiftMem(Shift::Rol), mode: AddrMode::Abx, cycles: 7, page_penalty: false },
        0x6A => Instr { op: Op::ShiftAcc(Shift::Ror), mode: AddrMode::Acc, cycles: 2, page_penalty: false },
        0x66 => Instr { op: Op::ShiftMem(Shift::Ror), mode: AddrMode::Zp, cycles: 5, page_penalty: false },
        0x76 => Instr { op: Op::ShiftMem(Shift::Ror), mode: AddrMode::Zpx, cycles: 6, page_penalty: false },
        0x6E => Instr { op: Op::ShiftMem(Shift::Ror), mode: AddrMode::Abs, cycles: 6, page_penalty: false },
        0x7E => Instr { op: Op::ShiftMem(Shift::Ror), mode: AddrMode::Abx, cycles: 7, page_penalty: false },
        0x4C => Instr { op: Op::Jmp, mode: AddrMode::Abs, cycles: 3, page_penalty: false },
        0x6C => Instr { op: Op::Jmp, mode: AddrMode::Ind, cycles: 5, page_penalty: false },
        0x20 => Instr { op: Op::Jsr, mode: AddrMode::Abs, cycles: 6, page_penalty: false },
        0x60 => Instr { op: Op::Rts, mode: AddrMode::Imp, cycles: 6, page_penalty: false },
        0xF0 => Instr { op: Op::Branch(FLAG_Z, true), mode: AddrMode::Rel, cycles: 2, page_penalty: false },
        0xD0 => Instr { op: Op::Branch(FLAG_Z, false), mode: AddrMode::Rel, cycles: 2, page_penalty: false },
        0xB0 => Instr { op: Op::Branch(FLAG_C, true), mode: AddrMode::Rel, cycles: 2, page_penalty: false },
        0x90 => Instr { op: Op::Branch(FLAG_C, false), mode: AddrMode::Rel, cycles: 2, page_penalty: false },
        0x30 => Instr { op: Op::Branch(FLAG_N, true), mode: AddrMode::Rel, cycles: 2, page_penalty: false },
        0x10 => Instr { op: Op::Branch(FLAG_N, false), mode: AddrMode::Rel, cycles: 2, page_penalty: false },
        0x70 => Instr { op: Op::Branch(FLAG_V, true), mode: AddrMode::Rel, cycles: 2, page_penalty: false },
        0x50 => Instr { op: Op::Branch(FLAG_V, false), mode: AddrMode::Rel, cycles: 2, page_penalty: false },
        0x38 => Instr { op: Op::SetFlag(FLAG_C, true), mode: AddrMode::Imp, cycles: 2, page_penalty: false },
        0x18 => Instr { op: Op::SetFlag(FLAG_C, false), mode: AddrMode::Imp, cycles: 2, page_penalty: false },
        0x78 => Instr { op: Op::SetFlag(FLAG_I, true), mode: AddrMode::Imp, cycles: 2, page_penalty: false },
        0x58 => Instr { op: Op::SetFlag(FLAG_I, false), mode: AddrMode::Imp, cycles: 2, page_penalty: false },
        0xF8 => Instr { op: Op::SetFlag(FLAG_D, true), mode: AddrMode::Imp, cycles: 2, page_penalty: false },
        0xD8 => Instr { op: Op::SetFlag(FLAG_D, false), mode: AddrMode::Imp, cycles: 2, page_penalty: false },
        0xB8 => Instr { op: Op::SetFlag(FLAG_V, false), mode: AddrMode::Imp, cycles: 2, page_penalty: false },
        0xEA => Instr { op: Op::Nop, mode: AddrMode::Imp, cycles: 2, page_penalty: false },
        0x24 => Instr { op: Op::Bit, mode: AddrMode::Zp, cycles: 3, page_penalty: false },
        0x2C => Instr { op: Op::Bit, mode: AddrMode::Abs, cycles: 4, page_penalty: false },
        0x00 => Instr { op: Op::Brk, mode: AddrMode::Imp, cycles: 7, page_penalty: false },
        0x40 => Instr { op: Op::Rti, mode: AddrMode::Imp, cycles: 6, page_penalty: false },
        0x1A | 0x3A | 0x5A | 0x7A | 0xDA | 0xFA => Instr { op: Op::Nop, mode: AddrMode::Imp, cycles: 2, page_penalty: false },
        0x80 | 0x82 | 0x89 | 0xC2 | 0xE2 => Instr { op: Op::Nop, mode: AddrMode::Imm, cycles: 2, page_penalty: false },
        0x04 | 0x44 | 0x64 => Instr { op: Op::Nop, mode: AddrMode::Zp, cycles: 3, page_penalty: false },
        0x14 | 0x34 | 0x54 | 0x74 | 0xD4 | 0xF4 => Instr { op: Op::Nop, mode: AddrMode::Zpx, cycles: 4, page_penalty: false },
        0x0C => Instr { op: Op::Nop, mode: AddrMode::Abs, cycles: 4, page_penalty: false },
        0x1C | 0x3C | 0x5C | 0x7C | 0xDC | 0xFC => Instr { op: Op::Nop, mode: AddrMode::Abx, cycles: 4, page_penalty: true },
        0xA3 => Instr { op: Op::Lax, mode: AddrMode::Izx, cycles: 6, page_penalty: false },
        0xA7 => Instr { op: Op::Lax, mode: AddrMode::Zp, cycles: 3, page_penalty: false },
        0xAF => Instr { op: Op::Lax, mode: AddrMode::Abs, cycles: 4, page_penalty: false },
        0xB3 => Instr { op: Op::Lax, mode: AddrMode::Izy, cycles: 5, page_penalty: true },
        0xB7 => Instr { op: Op::Lax, mode: AddrMode::Zpy, cycles: 4, page_penalty: false },
        0xBF => Instr { op: Op::Lax, mode: AddrMode::Aby, cycles: 4, page_penalty: true },
        0x83 => Instr { op: Op::Sax, mode: AddrMode::Izx, cycles: 6, page_penalty: false },
        0x87 => Instr { op: Op::Sax, mode: AddrMode::Zp, cycles: 3, page_penalty: false },
        0x8F => Instr { op: Op::Sax, mode: AddrMode::Abs, cycles: 4, page_penalty: false },
        0x97 => Instr { op: Op::Sax, mode: AddrMode::Zpy, cycles: 4, page_penalty: false },
        0xEB => Instr { op: Op::Sbc, mode: AddrMode::Imm, cycles: 2, page_penalty: false },
        0xC3 => Instr { op: Op::Dcp, mode: AddrMode::Izx, cycles: 8, page_penalty: false },
        0xC7 => Instr { op: Op::Dcp, mode: AddrMode::Zp, cycles: 5, page_penalty: false },
        0xCF => Instr { op: Op::Dcp, mode: AddrMode::Abs, cycles: 6, page_penalty: false },
        0xD3 => Instr { op: Op::Dcp, mode: AddrMode::Izy, cycles: 8, page_penalty: false },
        0xD7 => Instr { op: Op::Dcp, mode: AddrMode::Zpx, cycles: 6, page_penalty: false },
        0xDB => Instr { op: Op::Dcp, mode: AddrMode::Aby, cycles: 7, page_penalty: false },
        0xDF => Instr { op: Op::Dcp, mode: AddrMode::Abx, cycles: 7, page_penalty: false },
        0xE3 => Instr { op: Op::Isc, mode: AddrMode::Izx, cycles: 8, page_penalty: false },
        0xE7 => Instr { op: Op::Isc, mode: AddrMode::Zp, cycles: 5, page_penalty: false },
        0xEF => Instr { op: Op::Isc, mode: AddrMode::Abs, cycles: 6, page_penalty: false },
        0xF3 => Instr { op: Op::Isc, mode: AddrMode::Izy, cycles: 8, page_penalty: false },
        0xF7 => Instr { op: Op::Isc, mode: AddrMode::Zpx, cycles: 6, page_penalty: false },
        0xFB => Instr { op: Op::Isc, mode: AddrMode::Aby, cycles: 7, page_penalty: false },
        0xFF => Instr { op: Op::Isc, mode: AddrMode::Abx, cycles: 7, page_penalty: false },
        0x23 => Instr { op: Op::Rla, mode: AddrMode::Izx, cycles: 8, page_penalty: false },
        0x27 => Instr { op: Op::Rla, mode: AddrMode::Zp, cycles: 5, page_penalty: false },
        0x2F => Instr { op: Op::Rla, mode: AddrMode::Abs, cycles: 6, page_penalty: false },
        0x33 => Instr { op: Op::Rla, mode: AddrMode::Izy, cycles: 8, page_penalty: false },
        0x37 => Instr { op: Op::Rla, mode: AddrMode::Zpx, cycles: 6, page_penalty: false },
        0x3B => Instr { op: Op::Rla, mode: AddrMode::Aby, cycles: 7, page_penalty: false },
        0x3F => Instr { op: Op::Rla, mode: AddrMode::Abx, cycles: 7, page_penalty: false },
        0x03 => Instr { op: Op::Slo, mode: AddrMode::Izx, cycles: 8, page_penalty: false },
        0x07 => Instr { op: Op::Slo, mode: AddrMode::Zp, cycles: 5, page_penalty: false },
        0x0F => Instr { op: Op::Slo, mode: AddrMode::Abs, cycles: 6, page_penalty: false },
        0x13 => Instr { op: Op::Slo, mode: AddrMode::Izy, cycles: 8, page_penalty: false },
        0x17 => Instr { op: Op::Slo, mode: AddrMode::Zpx, cycles: 6, page_penalty: false },
        0x1B => Instr { op: Op::Slo, mode: AddrMode::Aby, cycles: 7, page_penalty: false },
        0x1F => Instr { op: Op::Slo, mode: AddrMode::Abx, cycles: 7, page_penalty: false },
        0x43 => Instr { op: Op::Sre, mode: AddrMode::Izx, cycles: 8, page_penalty: false },
        0x47 => Instr { op: Op::Sre, mode: AddrMode::Zp, cycles: 5, page_penalty: false },
        0x4F => Instr { op: Op::Sre, mode: AddrMode::Abs, cycles: 6, page_penalty: false },
        0x53 => Instr { op: Op::Sre, mode: AddrMode::Izy, cycles: 8, page_penalty: false },
        0x57 => Instr { op: Op::Sre, mode: AddrMode::Zpx, cycles: 6, page_penalty: false },
        0x5B => Instr { op: Op::Sre, mode: AddrMode::Aby, cycles: 7, page_penalty: false },
        0x5F => Instr { op: Op::Sre, mode: AddrMode::Abx, cycles: 7, page_penalty: false },
        0x63 => Instr { op: Op::Rra, mode: AddrMode::Izx, cycles: 8, page_penalty: false },
        0x67 => Instr { op: Op::Rra, mode: AddrMode::Zp, cycles: 5, page_penalty: false },
        0x6F => Instr { op: Op::Rra, mode: AddrMode::Abs, cycles: 6, page_penalty: false },
        0x73 => Instr { op: Op::Rra, mode: AddrMode::Izy, cycles: 8, page_penalty: false },
        0x77 => Instr { op: Op::Rra, mode: AddrMode::Zpx, cycles: 6, page_penalty: false },
        0x7B => Instr { op: Op::Rra, mode: AddrMode::Aby, cycles: 7, page_penalty: false },
        0x7F => Instr { op: Op::Rra, mode: AddrMode::Abx, cycles: 7, page_penalty: false },
        _ => Instr { op: Op::Nop, mode: AddrMode::Imp, cycles: 2, page_penalty: false },
    }
}

/// Looks an opcode up in the opcode table.
pub fn decode_opcode(opcode: u8) -> (ins: Instr)
    ensures
        ins == decode(opcode),
        2 <= ins.cycles,
        ins.cycles + (if ins.page_penalty { 1int } else { 0int }) <= 8,
        ins.op is Branch ==> ins.cycles == 2,
{
    proof {
        reveal(decode);
    }
    match opcode {
        0xA9 => Instr { op: Op::Load(Reg::A), mode: AddrMode::Imm, cycles: 2, page_penalty: false },
        0xA5 => Instr { op: Op::Load(Reg::A), mode: AddrMode::Zp, cycles: 3, page_penalty: false },
        0xB5 => Instr { op: Op::Load(Reg::A), mode: AddrMode::Zpx, cycles: 4, page_penalty: false },
        0xAD => Instr { op: Op::Load(Reg::A), mode: AddrMode::Abs, cycles: 4, page_penalty: false },
        0xBD => Instr { op: Op::Load(Reg::A), mode: AddrMode::Abx, cycles: 4, page_penalty: true },
        0xB9 => Instr { op: Op::Load(Reg::A), mode: AddrMode::Aby, cycles: 4, page_penalty: true },
        0xA1 => Instr { op: Op::Load(Reg::A), mode: AddrMode::Izx, cycles: 6, page_penalty: false },
        0xB1 => Instr { op: Op::Load(Reg::A), mode: AddrMode::Izy, cycles: 5, page_penalty: true },
        0xA2 => Instr { op: Op::Load(Reg::X), mode: AddrMode::Imm, cycles: 2, page_penalty: false },
        0xA6 => Instr { op: Op::Load(Reg::X), mode: AddrMode::Zp, cycles: 3, page_penalty: false },
        0xB6 => Instr { op: Op::Load(Reg::X), mode: AddrMode::Zpy, cycles: 4, page_penalty: false },
        0xAE => Instr { op: Op::Load(Reg::X), mode: AddrMode::Abs, cycles: 4, page_penalty: false },
        0xBE => Instr { op: Op::Load(Reg::X), mode: AddrMode::Aby, cycles: 4, page_penalty: true },
        0xA0 => Instr { op: Op::Load(Reg::Y), mode: AddrMode::Imm, cycles: 2, page_penalty: false },
        0xA4 => Instr { op: Op::Load(Reg::Y), mode: AddrMode::Zp, cycles: 3, page_penalty: false },
        0xB4 => Instr { op: Op::Load(Reg::Y), mode: AddrMode::Zpx, cycles: 4, page_penalty: false },
        0xAC => Instr { op: Op::Load(Reg::Y), mode: AddrMode::Abs, cycles: 4, page_penalty: false },
        0xBC => Instr { op: Op::Load(Reg::Y), mode: AddrMode::Abx, cycles: 4, page_penalty: true },
        0x85 => Instr { op: Op::Store(Reg::A), mode: AddrMode::Zp, cycles: 3, page_penalty: false },
        0x95 => Instr { op: Op::Store(Reg::A), mode: AddrMode::Zpx, cycles: 4, page_penalty: false },
        0x8D => Instr { op: Op::Store(Reg::A), mode: AddrMode::Abs, cycles: 4, page_penalty: false },
        0x9D => Instr { op: Op::Store(Reg::A), mode: AddrMode::Abx, cycles: 5, page_penalty: false },
        0x99 => Instr { op: Op::Store(Reg::A), mode: AddrMode::Aby, cycles: 5, page_penalty: false },
        0x81 => Instr { op: Op::Store(Reg::A), mode: AddrMode::Izx, cycles: 6, page_penalty: false },
        0x91 => Instr { op: Op::Store(Reg::A), mode: AddrMode::Izy, cycles: 6, page_penalty: false },
        0x86 => Instr { op: Op::Store(Reg::X), mode: AddrMode::Zp, cycles: 3, page_penalty: false },
        0x96 => Instr { op: Op::Store(Reg::X), mode: AddrMode::Zpy, cycles: 4, page_penalty: false },
        0x8E => Instr { op: Op::Store(Reg::X), mode: AddrMode::Abs, cycles: 4, page_penalty: false },
        0x84 => Instr { op: Op::Store(Reg::Y), mode: AddrMode::Zp, cycles: 3, page_penalty: false },
        0x94 => Instr { op: Op::Store(Reg::Y), mode: AddrMode::Zpx, cycles: 4, page_penalty: false },
        0x8C => Instr { op: Op::Store(Reg::Y), mode: AddrMode::Abs, cycles: 4, page_penalty: false },
        0xAA => Instr { op: Op::Tax, mode: AddrMode::Imp, cycles: 2, page_penalty: false },
        0xA8 => Instr { op: Op::Tay, mode: AddrMode::Imp, cycles: 2, page_penalty: false },
        0x8A => Instr { op: Op::Txa, mode: AddrMode::Imp, cycles: 2, page_penalty: false },
        0x98 => Instr { op: Op::Tya, mode: AddrMode::Imp, cycles: 2, page_penalty: false },
        0xBA => Instr { op: Op::Tsx, mode: AddrMode::Imp, cycles: 2, page_penalty: false },
        0x9A => Instr { op: Op::Txs, mode: AddrMode::Imp, cycles: 2, page_penalty: false },
        0x48 => Instr { op: Op::Pha, mode: AddrMode::Imp, cycles: 3, page_penalty: false },
        0x68 => Instr { op: Op::Pla, mode: AddrMode::Imp, cycles: 4, page_penalty: false },
        0x08 => Instr { op: Op::Php, mode: AddrMode::Imp, cycles: 3, page_penalty: false },
        0x28 => Instr { op: Op::Plp, mode: AddrMode::Imp, cycles: 4, page_penalty: false },
        0x29 => Instr { op: Op::And, mode: AddrMode::Imm, cycles: 2, page_penalty: false },
        0x25 => Instr { op: Op::And, mode: AddrMode::Zp, cycles: 3, page_penalty: false },
        0x35 => Instr { op: Op::And, mode: AddrMode::Zpx, cycles: 4, page_penalty: false },
        0x2D => Instr { op: Op::And, mode: AddrMode::Abs, cycles: 4, page_penalty: false },
        0x3D => Instr { op: Op::And, mode: AddrMode::Abx, cycles: 4, page_penalty: true },
        0x39 => Instr { op: Op::And, mode: AddrMode::Aby, cycles: 4, page_penalty: true },
        0x21 => Instr { op: Op::And, mode: AddrMode::Izx, cycles: 6, page_penalty: false },
        0x31 => Instr { op: Op::And, mode: AddrMode::Izy, cycles: 5, page_penalty: true },
        0x09 => Instr { op: Op::Ora, mode: AddrMode::Imm, cycles: 2, page_penalty: false },
        0x05 => Instr { op: Op::Ora, mode: AddrMode::Zp, cycles: 3, page_penalty: false },
        0x15 => Instr { op: Op::Ora, mode: AddrMode::Zpx, cycles: 4, page_penalty: false },
        0x0D => Instr { op: Op::Ora, mode: AddrMode::Abs, cycles: 4, page_penalty: false },
        0x1D => Instr { op: Op::Ora, mode: AddrMode::Abx, cycles: 4, page_penalty: true },
        0x19 => Instr { op: Op::Ora, mode: AddrMode::Aby, cycles: 4, page_penalty: true },
        0x01 => Instr { op: Op::Ora, mode: AddrMode::Izx, cycles: 6, page_penalty: false },
        0x11 => Instr { op: Op::Ora, mode: AddrMode::Izy, cycles: 5, page_penalty: true },
        0x49 => Instr { op: Op::Eor, mode: AddrMode::Imm, cycles: 2, page_penalty: false },
        0x45 => Instr { op: Op::Eor, mode: AddrMode::Zp, cycles: 3, page_penalty: false },
        0x55 => Instr { op: Op::Eor, mode: AddrMode::Zpx, cycles: 4, page_penalty: false },
        0x4D => Instr { op: Op::Eor, mode: AddrMode::Abs, cycles: 4, page_penalty: false },
        0x5D => Instr { op: Op::Eor, mode: AddrMode::Abx, cycles: 4, page_penalty: true },
        0x59 => Instr { op: Op::Eor, mode: AddrMode::Aby, cycles: 4, page_penalty: true },
        0x41 => Instr { op: Op::Eor, mode: AddrMode::Izx, cycles: 6, page_penalty: false },
        0x51 => Instr { op: Op::Eor, mode: AddrMode::Izy, cycles: 5, page_penalty: true },
        0x69 => Instr { op: Op::Adc, mode: AddrMode::Imm, cycles: 2, page_penalty: false },
        0x65 => Instr { op: Op::Adc, mode: AddrMode::Zp, cycles: 3, page_penalty: false },
        0x75 => Instr { op: Op::Adc, mode: AddrMode::Zpx, cycles: 4, page_penalty: false },
        0x6D => Instr { op: Op::Adc, mode: AddrMode::Abs, cycles: 4, page_penalty: false },
        0x7D => Instr { op: Op::Adc, mode: AddrMode::Abx, cycles: 4, page_penalty: true },
        0x79 => Instr { op: Op::Adc, mode: AddrMode::Aby, cycles: 4, page_penalty: true },
        0x61 => Instr { op: Op::Adc, mode: AddrMode::Izx, cycles: 6, page_penalty: false },
        0x71 => Instr { op: Op::Adc, mode: AddrMode::Izy, cycles: 5, page_penalty: true },
        0xE9 => Instr { op: Op::Sbc, mode: AddrMode::Imm, cycles: 2, page_penalty: false },
        0xE5 => Instr { op: Op::Sbc, mode: AddrMode::Zp, cycles: 3, page_penalty: false },
        0xF5 => Instr { op: Op::Sbc, mode: AddrMode::Zpx, cycles: 4, page_penalty: false },
        0xED => Instr { op: Op::Sbc, mode: AddrMode::Abs, cycles: 4, page_penalty: false },
        0xFD => Instr { op: Op::Sbc, mode: AddrMode::Abx, cycles: 4, page_penalty: true },
        0xF9 => Instr { op: Op::Sbc, mode: AddrMode::Aby, cycles: 4, page_penalty: true },
        0xE1 => Instr { op: Op::Sbc, mode: AddrMode::Izx, cycles: 6, page_penalty: false },
        0xF1 => Instr { op: Op::Sbc, mode: AddrMode::Izy, cycles: 5, page_penalty: true },
        0xC9 => Instr { op: Op::Compare(Reg::A), mode: AddrMode::Imm, cycles: 2, page_penalty: false },
        0xC5 => Instr { op: Op::Compare(Reg::A), mode: AddrMode::Zp, cycles: 3, page_penalty: false },
        0xD5 => Instr { op: Op::Compare(Reg::A), mode: AddrMode::Zpx, cycles: 4, page_penalty: false },
        0xCD => Instr { op: Op::Compare(Reg::A), mode: AddrMode::Abs, cycles: 4, page_penalty: false },
        0xDD => Instr { op: Op::Compare(Reg::A), mode: AddrMode::Abx, cycles: 4, page_penalty: true },
        0xD9 => Instr { op: Op::Compare(Reg::A), mode: AddrMode::Aby, cycles: 4, page_penalty: true },
        0xC1 => Instr { op: Op::Compare(Reg::A), mode: AddrMode::Izx, cycles: 6, page_penalty: false },
        0xD1 => Instr { op: Op::Compare(Reg::A), mode: AddrMode::Izy, cycles: 5, page_penalty: true },
        0xE0 => Instr { op: Op::Compare(Reg::X), mode: AddrMode::Imm, cycles: 2, page_penalty: false },
        0xE4 => Instr { op: Op::Compare(Reg::X), mode: AddrMode::Zp, cycles: 3, page_penalty: false },
        0xEC => Instr { op: Op::Compare(Reg::X), mode: AddrMode::Abs, cycles: 4, page_penalty: false },
        0xC0 => Instr { op: Op::Compare(Reg::Y), mode: AddrMode::Imm, cycles: 2, page_penalty: false },
        0xC4 => Instr { op: Op::Compare(Reg::Y), mode: AddrMode::Zp, cycles: 3, page_penalty: false },
        0xCC => Instr { op: Op::Compare(Reg::Y), mode: AddrMode::Abs, cycles: 4, page_penalty: false },
        0xE6 => Instr { op: Op::Inc, mode: AddrMode::Zp, cycles: 5, page_penalty: false },
        0xF6 => Instr { op: Op::Inc, mode: AddrMode::Zpx, cycles: 6, page_penalty: false },
        0xEE => Instr { op: Op::Inc, mode: AddrMode::Abs, cycles: 6, page_penalty: false },
        0xFE => Instr { op: Op::Inc, mode: AddrMode::Abx, cycles: 7, page_penalty: false },
        0xC6 => Instr { op: Op::Dec, mode: AddrMode::Zp, cycles: 5, page_penalty: false },
        0xD6 => Instr { op: Op::Dec, mode: AddrMode::Zpx, cycles: 6, page_penalty: false },
        0xCE => Instr { op: Op::Dec, mode: AddrMode::Abs, cycles: 6, page_penalty: false },
        0xDE => Instr { op: Op::Dec, mode: AddrMode::Abx, cycles: 7, page_penalty: false },
        0xE8 => Instr { op: Op::IncReg(Reg::X), mode: AddrMode::Imp, cycles: 2, page_penalty: false },
        0xC8 => Instr { op: Op::IncReg(Reg::Y), mode: AddrMode::Imp, cycles: 2, page_penalty: false },
        0xCA => Instr { op: Op::DecReg(Reg::X), mode: AddrMode::Imp, cycles: 2, page_penalty: false },
        0x88 => Instr { op: Op::DecReg(Reg::Y), mode: AddrMode::Imp, cycles: 2, page_penalty: false },
        0x0A => Instr { op: Op::ShiftAcc(Shift::Asl), mode: AddrMode::Acc, cycles: 2, page_penalty: false },
        0x06 => Instr { op: Op::ShiftMem(Shift::Asl), mode: AddrMode::Zp, cycles: 5, page_penalty: false },
        0x16 => Instr { op: Op::ShiftMem(Shift::Asl), mode: AddrMode::Zpx, cycles: 6, page_penalty: false },
        0x0E => Instr { op: Op::ShiftMem(Shift::Asl), mode: AddrMode::Abs, cycles: 6, page_penalty: false },
        0x1E => Instr { op: Op::ShiftMem(Shift::Asl), mode: AddrMode::Abx, cycles: 7, page_penalty: false },
        0x4A => Instr { op: Op::ShiftAcc(Shift::Lsr), mode: AddrMode::Acc, cycles: 2, page_penalty: false },
        0x46 => Instr { op: Op::ShiftMem(Shift::Lsr), mode: AddrMode::Zp, cycles: 5, page_penalty: false },
        0x56 => Instr { op: Op::ShiftMem(Shift::Lsr), mode: AddrMode::Zpx, cycles: 6, page_penalty: false },
        0x4E => Instr { op: Op::ShiftMem(Shift::Lsr), mode: AddrMode::Abs, cycles: 6, page_penalty: false },
        0x5E => Instr { op: Op::ShiftMem(Shift::Lsr), mode: AddrMode::Abx, cycles: 7, page_penalty: false },
        0x2A => Instr { op: Op::ShiftAcc(Shift::Rol), mode: AddrMode::Acc, cycles: 2, page_penalty: false },
        0x26 => Instr { op: Op::ShiftMem(Shift::Rol), mode: AddrMode::Zp, cycles: 5, page_penalty: false },
        0x36 => Instr { op: Op::ShiftMem(Shift::Rol), mode: AddrMode::Zpx, cycles: 6, page_penalty: false },
        0x2E => Instr { op: Op::ShiftMem(Shift::Rol), mode: AddrMode::Abs, cycles: 6, page_penalty: false },
        0x3E => Instr { op: Op::ShiftMem(Shift::Rol), mode: AddrMode::Abx, cycles: 7, page_penalty: false },
        0x6A => Instr { op: Op::ShiftAcc(Shift::Ror), mode: AddrMode::Acc, cycles: 2, page_penalty: false },
        0x66 => Instr { op: Op::ShiftMem(Shift::Ror), mode: AddrMode::Zp, cycles: 5, page_penalty: false },
        0x76 => Instr { op: Op::ShiftMem(Shift::Ror), mode: AddrMode::Zpx, cycles: 6, page_penalty: false },
        0x6E => Instr { op: Op::ShiftMem(Shift::Ror), mode: AddrMode::Abs, cycles: 6, page_penalty: false },
        0x7E => Instr { op: Op::ShiftMem(Shift::Ror), mode: AddrMode::Abx, cycles: 7, page_penalty: false },
        0x4C => Instr { op: Op::Jmp, mode: AddrMode::Abs, cycles: 3, page_penalty: false },
        0x6C => Instr { op: Op::Jmp, mode: AddrMode::Ind, cycles: 5, page_penalty: false },
        0x20 => Instr { op: Op::Jsr, mode: AddrMode::Abs, cycles: 6, page_penalty: false },
        0x60 => Instr { op: Op::Rts, mode: AddrMode::Imp, cycles: 6, page_penalty: false },
        0xF0 => Instr { op: Op::Branch(FLAG_Z, true), mode: AddrMode::Rel, cycles: 2, page_penalty: false },
        0xD0 => Instr { op: Op::Branch(FLAG_Z, false), mode: AddrMode::Rel, cycles: 2, page_penalty: false },
        0xB0 => Instr { op: Op::Branch(FLAG_C, true), mode: AddrMode::Rel, cycles: 2, page_penalty: false },
        0x90 => Instr { op: Op::Branch(FLAG_C, false), mode: AddrMode::Rel, cycles: 2, page_penalty: false },
        0x30 => Instr { op: Op::Branch(FLAG_N, true), mode: AddrMode::Rel, cycles: 2, page_penalty: false },
        0x10 => Instr { op: Op::Branch(FLAG_N, false), mode: AddrMode::Rel, cycles: 2, page_penalty: false },
        0x70 => Instr { op: Op::Branch(FLAG_V, true), mode: AddrMode::Rel, cycles: 2, page_penalty: false },
        0x50 => Instr { op: Op::Branch(FLAG_V, false), mode: AddrMode::Rel, cycles: 2, page_penalty: false },
        0x38 => Instr { op: Op::SetFlag(FLAG_C, true), mode: AddrMode::Imp, cycles: 2, page_penalty: false },
        0x18 => Instr { op: Op::SetFlag(FLAG_C, false), mode: AddrMode::Imp, cycles: 2, page_penalty: false },
        0x78 => Instr { op: Op::SetFlag(FLAG_I, true), mode: AddrMode::Imp, cycles: 2, page_penalty: false },
        0x58 => Instr { op: Op::SetFlag(FLAG_I, false), mode: AddrMode::Imp, cycles: 2, page_penalty: false },
        0xF8 => Instr { op: Op::SetFlag(FLAG_D, true), mode: AddrMode::Imp, cycles: 2, page_penalty: false },
        0xD8 => Instr { op: Op::SetFlag(FLAG_D, false), mode: AddrMode::Imp, cycles: 2, page_penalty: false },
        0xB8 => Instr { op: Op::SetFlag(FLAG_V, false), mode: AddrMode::Imp, cycles: 2, page_penalty: false },
        0xEA => Instr { op: Op::Nop, mode: AddrMode::Imp, cycles: 2, page_penalty: false },
        0x24 => Instr { op: Op::Bit, mode: AddrMode::Zp, cycles: 3, page_penalty: false },
        0x2C => Instr { op: Op::Bit, mode: AddrMode::Abs, cycles: 4, page_penalty: false },
        0x00 => Instr { op: Op::Brk, mode: AddrMode::Imp, cycles: 7, page_penalty: false },
        0x40 => Instr { op: Op::Rti, mode: AddrMode::Imp, cycles: 6, page_penalty: false },
        0x1A | 0x3A | 0x5A | 0x7A | 0xDA | 0xFA => Instr { op: Op::Nop, mode: AddrMode::Imp, cycles: 2, page_penalty: false },
        0x80 | 0x82 | 0x89 | 0xC2 | 0xE2 => Instr { op: Op::Nop, mode: AddrMode::Imm, cycles: 2, page_penalty: false },
        0x04 | 0x44 | 0x64 => Instr { op: Op::Nop, mode: AddrMode::Zp, cycles: 3, page_penalty: false },
        0x14 | 0x34 | 0x54 | 0x74 | 0xD4 | 0xF4 => Instr { op: Op::Nop, mode: AddrMode::Zpx, cycles: 4, page_penalty: false },
        0x0C => Instr { op: Op::Nop, mode: AddrMode::Abs, cycles: 4, page_penalty: false },
        0x1C | 0x3C | 0x5C | 0x7C | 0xDC | 0xFC => Instr { op: Op::Nop, mode: AddrMode::Abx, cycles: 4, page_penalty: true },
        0xA3 => Instr { op: Op::Lax, mode: AddrMode::Izx, cycles: 6, page_penalty: false },
        0xA7 => Instr { op: Op::Lax, mode: AddrMode::Zp, cycles: 3, page_penalty: false },
        0xAF => Instr { op: Op::Lax, mode: AddrMode::Abs, cycles: 4, page_penalty: false },
        0xB3 => Instr { op: Op::Lax, mode: AddrMode::Izy, cycles: 5, page_penalty: true },
        0xB7 => Instr { op: Op::Lax, mode: AddrMode::Zpy, cycles: 4, page_penalty: false },
        0xBF => Instr { op: Op::Lax, mode: AddrMode::Aby, cycles: 4, page_penalty: true },
        0x83 => Instr { op: Op::Sax, mode: AddrMode::Izx, cycles: 6, page_penalty: false },
        0x87 => Instr { op: Op::Sax, mode: AddrMode::Zp, cycles: 3, page_penalty: false },
        0x8F => Instr { op: Op::Sax, mode: AddrMode::Abs, cycles: 4, page_penalty: false },
        0x97 => Instr { op: Op::Sax, mode: AddrMode::Zpy, cycles: 4, page_penalty: false },
        0xEB => Instr { op: Op::Sbc, mode: AddrMode::Imm, cycles: 2, page_penalty: false },
        0xC3 => Instr { op: Op::Dcp, mode: AddrMode::Izx, cycles: 8, page_penalty: false },
        0xC7 => Instr { op: Op::Dcp, mode: AddrMode::Zp, cycles: 5, page_penalty: false },
        0xCF => Instr { op: Op::Dcp, mode: AddrMode::Abs, cycles: 6, page_penalty: false },
        0xD3 => Instr { op: Op::Dcp, mode: AddrMode::Izy, cycles: 8, page_penalty: false },
        0xD7 => Instr { op: Op::Dcp, mode: AddrMode::Zpx, cycles: 6, page_penalty: false },
        0xDB => Instr { op: Op::Dcp, mode: AddrMode::Aby, cycles: 7, page_penalty: false },
        0xDF => Instr { op: Op::Dcp, mode: AddrMode::Abx, cycles: 7, page_penalty: false },
        0xE3 => Instr { op: Op::Isc, mode: AddrMode::Izx, cycles: 8, page_penalty: false },
        0xE7 => Instr { op: Op::Isc, mode: AddrMode::Zp, cycles: 5, page_penalty: false },
        0xEF => Instr { op: Op::Isc, mode: AddrMode::Abs, cycles: 6, page_penalty: false },
        0xF3 => Instr { op: Op::Isc, mode: AddrMode::Izy, cycles: 8, page_penalty: false },
        0xF7 => Instr { op: Op::Isc, mode: AddrMode::Zpx, cycles: 6, page_penalty: false },
        0xFB => Instr { op: Op::Isc, mode: AddrMode::Aby, cycles: 7, page_penalty: false },
        0xFF => Instr { op: Op::Isc, mode: AddrMode::Abx, cycles: 7, page_penalty: false },
        0x23 => Instr { op: Op::Rla, mode: AddrMode::Izx, cycles: 8, page_penalty: false },
        0x27 => Instr { op: Op::Rla, mode: AddrMode::Zp, cycles: 5, page_penalty: false },
        0x2F => Instr { op: Op::Rla, mode: AddrMode::Abs, cycles: 6, page_penalty: false },
        0x33 => Instr { op: Op::Rla, mode: AddrMode::Izy, cycles: 8, page_penalty: false },
        0x37 => Instr { op: Op::Rla, mode: AddrMode::Zpx, cycles: 6, page_penalty: false },
        0x3B => Instr { op: Op::Rla, mode: AddrMode::Aby, cycles: 7, page_penalty: false },
        0x3F => Instr { op: Op::Rla, mode: AddrMode::Abx, cycles: 7, page_penalty: false },
        0x03 => Instr { op: Op::Slo, mode: AddrMode::Izx, cycles: 8, page_penalty: false },
        0x07 => Instr { op: Op::Slo, mode: AddrMode::Zp, cycles: 5, page_penalty: false },
        0x0F => Instr { op: Op::Slo, mode: AddrMode::Abs, cycles: 6, page_penalty: false },
        0x13 => Instr { op: Op::Slo, mode: AddrMode::Izy, cycles: 8, page_penalty: false },
        0x17 => Instr { op: Op::Slo, mode: AddrMode::Zpx, cycles: 6, page_penalty: false },
        0x1B => Instr { op: Op::Slo, mode: AddrMode::Aby, cycles: 7, page_penalty: false },
        0x1F => Instr { op: Op::Slo, mode: AddrMode::Abx, cycles: 7, page_penalty: false },
        0x43 => Instr { op: Op::Sre, mode: AddrMode::Izx, cycles: 8, page_penalty: false },
        0x47 => Instr { op: Op::Sre, mode: AddrMode::Zp, cycles: 5, page_penalty: false },
        0x4F => Instr { op: Op::Sre, mode: AddrMode::Abs, cycles: 6, page_penalty: false },
        0x53 => Instr { op: Op::Sre, mode: AddrMode::Izy, cycles: 8, page_penalty: false },
        0x57 => Instr { op: Op::Sre, mode: AddrMode::Zpx, cycles: 6, page_penalty: false },
        0x5B => Instr { op: Op::Sre, mode: AddrMode::Aby, cycles: 7, page_penalty: false },
        0x5F => Instr { op: Op::Sre, mode: AddrMode::Abx, cycles: 7, page_penalty: false },
        0x63 => Instr { op: Op::Rra, mode: AddrMode::Izx, cycles: 8, page_penalty: false },
        0x67 => Instr { op: Op::Rra, mode: AddrMode::Zp, cycles: 5, page_penalty: false },
        0x6F => Instr { op: Op::Rra, mode: AddrMode::Abs, cycles: 6, page_penalty: false },
        0x73 => Instr { op: Op::Rra, mode: AddrMode::Izy, cycles: 8, page_penalty: false },
        0x77 => Instr { op: Op::Rra, mode: AddrMode::Zpx, cycles: 6, page_penalty: false },
        0x7B => Instr { op: Op::Rra, mode: AddrMode::Aby, cycles: 7, page_penalty: false },
        0x7F => Instr { op: Op::Rra, mode: AddrMode::Abx, cycles: 7, page_penalty: false },
        _ => Instr { op: Op::Nop, mode: AddrMode::Imp, cycles: 2, page_penalty: false },
    }
}


// ---------------------------------------------------------------------------
// The instruction encoding
// ---------------------------------------------------------------------------

/// Addressing mode selected by bits 2-4 of a group-one opcode (bits 0-1 = 01).
pub open spec fn group_one_mode(bbb: u8) -> AddrMode {
    if bbb == 0 {
        AddrMode::Izx
    } else if bbb == 1 {
        AddrMode::Zp
    } else if bbb == 2 {
        AddrMode::Imm
    } else if bbb == 3 {
        AddrMode::Abs
    } else if bbb == 4 {
        AddrMode::Izy
    } else if bbb == 5 {
        AddrMode::Zpx
    } else if bbb == 6 {
        AddrMode::Aby
    } else {
        AddrMode::Abx
    }
}

/// Operation selected by bits 5-7 of a group-one opcode.
pub open spec fn group_one_op(aaa: u8) -> Op {
    if aaa == 0 {
        Op::Ora
    } else if aaa == 1 {
        Op::And
    } else if aaa == 2 {
        Op::Eor
    } else if aaa == 3 {
        Op::Adc
    } else if aaa == 4 {
        Op::Store(Reg::A)
    } else if aaa == 5 {
        Op::Load(Reg::A)
    } else if aaa == 6 {
        Op::Compare(Reg::A)
    } else {
        Op::Sbc
    }
}

/// The 6502's group-one encoding: opcode `aaabbb01` applies operation `aaa` (ORA,
/// AND, EOR, ADC, STA, LDA, CMP, SBC) to the operand addressed by `bbb` ((zp,X),
/// zp, #imm, abs, (zp),Y, zp,X, abs,Y, abs,X). Reads take 2 cycles for #imm, 3 for
/// zp, 4 for zp,X and abs, 4 plus one on a page crossing for abs,X, abs,Y, 5 plus
/// one for (zp),Y and 6 for (zp,X); STA takes a fixed 5 for abs,X/abs,Y and 6 for
/// (zp),Y. ($89, STA #imm, does not exist.)
pub open spec fn group_one_law(o: u8) -> bool {
    let aaa = o / 32;
    let bbb = (o / 4) % 8;
    let store = aaa == 4;
    let ins = decode(o);
    &&& ins.op == group_one_op(aaa)
    &&& ins.mode == group_one_mode(bbb)
    &&& ins.cycles == (if bbb == 0 {
        6u8
    } else if bbb == 1 {
        3
    } else if bbb == 2 {
        2
    } else if bbb == 3 || bbb == 5 {
        4
    } else if bbb == 4 {
        if store { 6 } else { 5 }
    } else {
        if store { 5 } else { 4 }
    })
    &&& ins.page_penalty == (!store && (bbb == 4 || bbb == 6 || bbb == 7))
}

/// Every group-one opcode decodes by the encoding of `group_one_law`.
pub proof fn lemma_group_one_encoding()
    ensures
        forall|o: u8| o % 4 == 1 && o != 0x89 ==> #[trigger] group_one_law(o),
{
    reveal(decode);
    assert(group_one_law(0x01));
    assert(group_one_law(0x05));
    assert(group_one_law(0x09));
    assert(group_one_law(0x0D));
    assert(group_one_law(0x11));
    assert(group_one_law(0x15));
    assert(group_one_law(0x19));
    assert(group_one_law(0x1D));
    assert(group_one_law(0x21));
    assert(group_one_law(0x25));
    assert(group_one_law(0x29));
    assert(group_one_law(0x2D));
    assert(group_one_law(0x31));
    assert(group_one_law(0x35));
    assert(group_one_law(0x39));
    assert(group_one_law(0x3D));
    assert(group_one_law(0x41));
    assert(group_one_law(0x45));
    assert(group_one_law(0x49));
    assert(group_one_law(0x4D));
    assert(group_one_law(0x51));
    assert(group_one_law(0x55));
    assert(group_one_law(0x59));
    assert(group_one_law(0x5D));
    assert(group_one_law(0x61));
    assert(group_one_law(0x65));
    assert(group_one_law(0x69));
    assert(group_one_law(0x6D));
    assert(group_one_law(0x71));
    assert(group_one_law(0x75));
    assert(group_one_law(0x79));
    assert(group_one_law(0x7D));
    assert(group_one_law(0x81));
    assert(group_one_law(0x85));
    assert(group_one_law(0x8D));
    assert(group_one_law(0x91));
    assert(group_one_law(0x95));
    assert(group_one_law(0x99));
    assert(group_one_law(0x9D));
    assert(group_one_law(0xA1));
    assert(group_one_law(0xA5));
    assert(group_one_law(0xA9));
    assert(group_one_law(0xAD));
    assert(group_one_law(0xB1));
    assert(group_one_law(0xB5));
    assert(group_one_law(0xB9));
    assert(group_one_law(0xBD));
    assert(group_one_law(0xC1));
    assert(group_one_law(0xC5));
    assert(group_one_law(0xC9));
    assert(group_one_law(0xCD));
    assert(group_one_law(0xD1));
    assert(group_one_law(0xD5));
    assert(group_one_law(0xD9));
    assert(group_one_law(0xDD));
    assert(group_one_law(0xE1));
    assert(group_one_law(0xE5));
    assert(group_one_law(0xE9));
    assert(group_one_law(0xED));
    assert(group_one_law(0xF1));
    assert(group_one_law(0xF5));
    assert(group_one_law(0xF9));
    assert(group_one_law(0xFD));
    assert forall|o: u8| o % 4 == 1 && o != 0x89 implies #[trigger] group_one_law(o) by {
        if o == 0x01 {
        } else if o == 0x05 {
        } else if o == 0x09 {
        } else if o == 0x0D {
        } else if o == 0x11 {
        } else if o == 0x15 {
        } else if o == 0x19 {
        } else if o == 0x1D {
        } else if o == 0x21 {
        } else if o == 0x25 {
        } else if o == 0x29 {
        } else if o == 0x2D {
        } else if o == 0x31 {
        } else if o == 0x35 {
        } else if o == 0x39 {
        } else if o == 0x3D {
        } else if o == 0x41 {
        } else if o == 0x45 {
        } else if o == 0x49 {
        } else if o == 0x4D {
        } else if o == 0x51 {
        } else if o == 0x55 {
        } else if o == 0x59 {
        } else if o == 0x5D {
        } else if o == 0x61 {
        } else if o == 0x65 {
        } else if o == 0x69 {
        } else if o == 0x6D {
        } else if o == 0x71 {
        } else if o == 0x75 {
        } else if o == 0x79 {
        } else if o == 0x7D {
        } else if o == 0x81 {
        } else if o == 0x85 {
        } else if o == 0x8D {
        } else if o == 0x91 {
        } else if o == 0x95 {
        } else if o == 0x99 {
        } else if o == 0x9D {
        } else if o == 0xA1 {
        } else if o == 0xA5 {
        } else if o == 0xA9 {
        } else if o == 0xAD {
        } else if o == 0xB1 {
        } else if o == 0xB5 {
        } else if o == 0xB9 {
        } else if o == 0xBD {
        } else if o == 0xC1 {
        } else if o == 0xC5 {
        } else if o == 0xC9 {
        } else if o == 0xCD {
        } else if o == 0xD1 {
        } else if o == 0xD5 {
        } else if o == 0xD9 {
        } else if o == 0xDD {
        } else if o == 0xE1 {
        } else if o == 0xE5 {
        } else if o == 0xE9 {
        } else if o == 0xED {
        } else if o == 0xF1 {
        } else if o == 0xF5 {
        } else if o == 0xF9 {
        } else if o == 0xFD {
        }
    }
}

/// The group-two read-modify-write and X-register instructions, opcode `aaabbb10`
/// with `bbb` odd: `aaa` is ASL, ROL, LSR, ROR, STX, LDX, DEC, INC, and `bbb`
/// addresses zp, abs, zp,X and abs,X, where STX/LDX index by Y instead. The
/// read-modify-write forms take 5, 6, 6 and 7 cycles; STX/LDX take 3 or 4, LDX
/// abs,Y one more on a page crossing. ($9E, STX abs,Y, does not exist.)
pub open spec fn group_two_law(o: u8) -> bool {
    let aaa = o / 32;
    let bbb = (o / 4) % 8;
    let x_reg = aaa == 4 || aaa == 5;
    let ins = decode(o);
    &&& ins.op == (if aaa == 0 {
        Op::ShiftMem(Shift::Asl)
    } else if aaa == 1 {
        Op::ShiftMem(Shift::Rol)
    } else if aaa == 2 {
        Op::ShiftMem(Shift::Lsr)
    } else if aaa == 3 {
        Op::ShiftMem(Shift::Ror)
    } else if aaa == 4 {
        Op::Store(Reg::X)
    } else if aaa == 5 {
        Op::Load(Reg::X)
    } else if aaa == 6 {
        Op::Dec
    } else {
        Op::Inc
    })
    &&& ins.mode == (if bbb == 1 {
        AddrMode::Zp
    } else if bbb == 3 {
        AddrMode::Abs
    } else if bbb == 5 {
        if x_reg { AddrMode::Zpy } else { AddrMode::Zpx }
    } else {
        if x_reg { AddrMode::Aby } else { AddrMode::Abx }
    })
    &&& ins.cycles == (if x_reg {
        if bbb == 1 { 3u8 } else { 4u8 }
    } else if bbb == 1 {
        5
    } else if bbb == 7 {
        7
    } else {
        6
    })
    &&& ins.page_penalty == (aaa == 5 && bbb == 7)
}

/// Every such group-two opcode decodes by the encoding of `group_two_law`.
pub proof fn lemma_group_two_encoding()
    ensures
        forall|o: u8| o % 4 == 2 && ((o / 4) % 8) % 2 == 1 && o != 0x9E ==> #[trigger] group_two_law(o),
{
    reveal(decode);
    assert(group_two_law(0x06));
    assert(group_two_law(0x0E));
    assert(group_two_law(0x16));
    assert(group_two_law(0x1E));
    assert(group_two_law(0x26));
    assert(group_two_law(0x2E));
    assert(group_two_law(0x36));
    assert(group_two_law(0x3E));
    assert(group_two_law(0x46));
    assert(group_two_law(0x4E));
    assert(group_two_law(0x56));
    assert(group_two_law(0x5E));
    assert(group_two_law(0x66));
    assert(group_two_law(0x6E));
    assert(group_two_law(0x76));
    assert(group_two_law(0x7E));
    assert(group_two_law(0x86));
    assert(group_two_law(0x8E));
    assert(group_two_law(0x96));
    assert(group_two_law(0xA6));
    assert(group_two_law(0xAE));
    assert(group_two_law(0xB6));
    assert(group_two_law(0xBE));
    assert(group_two_law(0xC6));
    assert(group_two_law(0xCE));
    assert(group_two_law(0xD6));
    assert(group_two_law(0xDE));
    assert(group_two_law(0xE6));
    assert(group_two_law(0xEE));
    assert(group_two_law(0xF6));
    assert(group_two_law(0xFE));
    assert forall|o: u8| o % 4 == 2 && ((o / 4) % 8) % 2 == 1 && o != 0x9E implies #[trigger] group_two_law(o) by {
        if o == 0x06 {
        } else if o == 0x0E {
        } else if o == 0x16 {
        } else if o == 0x1E {
        } else if o == 0x26 {
        } else if o == 0x2E {
        } else if o == 0x36 {
        } else if o == 0x3E {
        } else if o == 0x46 {
        } else if o == 0x4E {
        } else if o == 0x56 {
        } else if o == 0x5E {
        } else if o == 0x66 {
        } else if o == 0x6E {
        } else if o == 0x76 {
        } else if o == 0x7E {
        } else if o == 0x86 {
        } else if o == 0x8E {
        } else if o == 0x96 {
        } else if o == 0xA6 {
        } else if o == 0xAE {
        } else if o == 0xB6 {
        } else if o == 0xBE {
        } else if o == 0xC6 {
        } else if o == 0xCE {
        } else if o == 0xD6 {
        } else if o == 0xDE {
        } else if o == 0xE6 {
        } else if o == 0xEE {
        } else if o == 0xF6 {
        } else if o == 0xFE {
        }
    }
}

/// Branches are the opcodes `xxy10000`: they test flag `xx` (N, V, C, Z) for the
/// value `y`, take a relative operand and 2 cycles before the branch penalty.
pub open spec fn branch_law(o: u8) -> bool {
    let xx = o / 64;
    let flag = if xx == 0 {
        FLAG_N
    } else if xx == 1 {
        FLAG_V
    } else if xx == 2 {
        FLAG_C
    } else {
        FLAG_Z
    };
    decode(o) == (Instr { op: Op::Branch(flag, (o / 32) % 2 == 1), mode: AddrMode::Rel, cycles: 2, page_penalty: false })
}

/// Every branch opcode decodes by the encoding of `branch_law`.
pub proof fn lemma_branch_encoding()
    ensures
        forall|o: u8| o % 32 == 0x10 ==> #[trigger] branch_law(o),
{
    reveal(decode);
    assert(branch_law(0x10));
    assert(branch_law(0x30));
    assert(branch_law(0x50));
    assert(branch_law(0x70));
    assert(branch_law(0x90));
    assert(branch_law(0xB0));
    assert(branch_law(0xD0));
    assert(branch_law(0xF0));
    assert forall|o: u8| o % 32 == 0x10 implies #[trigger] branch_law(o) by {
        if o == 0x10 {
        } else if o == 0x30 {
        } else if o == 0x50 {
        } else if o == 0x70 {
        } else if o == 0x90 {
        } else if o == 0xB0 {
        } else if o == 0xD0 {
        } else if o == 0xF0 {
        }
    }
}

/// The group-zero opcodes `aaabbb00` that touch memory: `aaa` is BIT (1), STY (4),
/// LDY (5), CPY (6) or CPX (7), and `bbb` addresses #imm (0), zp (1), abs (3),
/// zp,X (5) or abs,X (7), taking 2, 3, 4, 4 and 4 cycles, LDY abs,X one more on a
/// page crossing. BIT has only zp and abs, STY no #imm and no abs,X, and the
/// compares no indexed forms.
pub open spec fn group_zero_opcode(o: u8) -> bool {
    let aaa = o / 32;
    let bbb = (o / 4) % 8;
    &&& o % 4 == 0
    &&& (aaa == 1 ==> bbb == 1 || bbb == 3)
    &&& (aaa == 4 ==> bbb == 1 || bbb == 3 || bbb == 5)
    &&& (aaa == 5 ==> bbb == 0 || bbb % 2 == 1)
    &&& (aaa >= 6 ==> bbb == 0 || bbb == 1 || bbb == 3)
    &&& (aaa == 1 || aaa >= 4)
}

/// How a group-zero opcode (see `group_zero_opcode`) decodes.
pub open spec fn group_zero_law(o: u8) -> bool {
    let aaa = o / 32;
    let bbb = (o / 4) % 8;
    let ins = decode(o);
    &&& ins.op == (if aaa == 1 {
        Op::Bit
    } else if aaa == 4 {
        Op::Store(Reg::Y)
    } else if aaa == 5 {
        Op::Load(Reg::Y)
    } else if aaa == 6 {
        Op::Compare(Reg::Y)
    } else {
        Op::Compare(Reg::X)
    })
    &&& ins.mode == (if bbb == 0 {
        AddrMode::Imm
    } else if bbb == 1 {
        AddrMode::Zp
    } else if bbb == 3 {
        AddrMode::Abs
    } else if bbb == 5 {
        AddrMode::Zpx
    } else {
        AddrMode::Abx
    })
    &&& ins.cycles == (if bbb == 0 { 2u8 } else if bbb == 1 { 3 } else { 4 })
    &&& ins.page_penalty == (bbb == 7)
}

/// Every group-zero opcode decodes by the encoding of `group_zero_law`.
pub proof fn lemma_group_zero_encoding()
    ensures
        forall|o: u8| #[trigger] group_zero_opcode(o) ==> group_zero_law(o),
{
    reveal(decode);
    assert(group_zero_law(0x24));
    assert(group_zero_law(0x2C));
    assert(group_zero_law(0x84));
    assert(group_zero_law(0x8C));
    assert(group_zero_law(0x94));
    assert(group_zero_law(0xA0));
    assert(group_zero_law(0xA4));
    assert(group_zero_law(0xAC));
    assert(group_zero_law(0xB4));
    assert(group_zero_law(0xBC));
    assert(group_zero_law(0xC0));
    assert(group_zero_law(0xC4));
    assert(group_zero_law(0xCC));
    assert(group_zero_law(0xE0));
    assert(group_zero_law(0xE4));
    assert(group_zero_law(0xEC));
    assert forall|o: u8| #[trigger] group_zero_opcode(o) implies group_zero_law(o) by {
        if o == 0x24 {
        } else if o == 0x2C {
        } else if o == 0x84 {
        } else if o == 0x8C {
        } else if o == 0x94 {
        } else if o == 0xA0 {
        } else if o == 0xA4 {
        } else if o == 0xAC {
        } else if o == 0xB4 {
        } else if o == 0xBC {
        } else if o == 0xC0 {
        } else if o == 0xC4 {
        } else if o == 0xCC {
        } else if o == 0xE0 {
        } else if o == 0xE4 {
        } else if o == 0xEC {
        }
    }
}

} // verus!
