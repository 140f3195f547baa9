use vstd::prelude::*;

use crate::bits::{lemma_byte_bits, lemma_byte_rol, lemma_byte_shl, lemma_word_bits};
use crate::bus::{Bus, BusView, bus_read, bus_write};
use crate::opcodes::{
    AddrMode, FLAG_B, FLAG_C, FLAG_D, FLAG_I, FLAG_N, FLAG_U, FLAG_V, FLAG_Z, Instr, Op, Reg, Shift,
    decode, decode_opcode,
};

verus! {

/// The 6502 core: registers and the count of elapsed cycles.
pub struct Cpu {
    pub a: u8,
    pub x: u8,
    pub y: u8,
    pub sp: u8,
    pub pc: u16,
    pub status: u8,
    pub cycles: u64,
}

// ---------------------------------------------------------------------------
// Arithmetic helpers
// ---------------------------------------------------------------------------

pub open spec fn wrap8(v: int) -> u8 {
    (v % 256) as u8
}

pub open spec fn wrap16(v: int) -> u16 {
    (v % 65536) as u16
}

/// Little-endian 16-bit word from its two bytes.
pub open spec fn word(lo: u8, hi: u8) -> u16 {
    (hi as int * 256 + lo as int) as u16
}

/// Two's-complement value of a byte.
pub open spec fn signed(v: u8) -> int {
    if v < 128 {
        v as int
    } else {
        v as int - 256
    }
}

/// The status byte with `flag` set (`on`) or cleared.
pub open spec fn with_flag(status: u8, flag: u8, on: bool) -> u8 {
    if on {
        status | flag
    } else {
        status & !flag
    }
}

pub open spec fn flag(status: u8, f: u8) -> bool {
    status & f != 0
}

/// The status byte with Z and N describing `v`.
pub open spec fn nz(status: u8, v: u8) -> u8 {
    with_flag(with_flag(status, FLAG_Z, v == 0), FLAG_N, v >= 0x80)
}

/// Address of stack slot `sp` (page one).
pub open spec fn stack_addr(sp: u8) -> u16 {
    (0x0100 + sp as int) as u16
}

impl Cpu {
    pub open spec fn reg(self, r: Reg) -> u8 {
        match r {
            Reg::A => self.a,
            Reg::X => self.x,
            Reg::Y => self.y,
        }
    }

    pub open spec fn with_reg(self, r: Reg, v: u8) -> Cpu {
        match r {
            Reg::A => Cpu { a: v, ..self },
            Reg::X => Cpu { x: v, ..self },
            Reg::Y => Cpu { y: v, ..self },
        }
    }

    pub open spec fn with_nz(self, v: u8) -> Cpu {
        Cpu { status: nz(self.status, v), ..self }
    }

    pub open spec fn carry(self) -> int {
        if flag(self.status, FLAG_C) {
            1
        } else {
            0
        }
    }

    /// The status register holds U set and B clear, as it does after reset.
    pub open spec fn status_ok(self) -> bool {
        self.status & 0x30 == 0x20
    }
}

// ---------------------------------------------------------------------------
// Arithmetic and logic
// ---------------------------------------------------------------------------

/// ADC: A + M + C. C is the unsigned carry out, V the signed overflow.
pub open spec fn adc_of(c: Cpu, v: u8) -> Cpu {
    let sum = c.a as int + v as int + c.carry();
    let ssum = signed(c.a) + signed(v) + c.carry();
    let result = wrap8(sum);
    let s = with_flag(c.status, FLAG_C, sum > 255);
    let s = with_flag(s, FLAG_V, ssum < -128 || ssum > 127);
    Cpu { a: result, status: nz(s, result), ..c }
}

/// SBC: ADC of the one's complement of the operand.
pub open spec fn sbc_of(c: Cpu, v: u8) -> Cpu {
    adc_of(c, v ^ 0xFF)
}

/// CMP/CPX/CPY: C when `reg >= v`, Z and N from `reg - v`.
pub open spec fn compare_of(c: Cpu, reg: u8, v: u8) -> Cpu {
    Cpu { status: nz(with_flag(c.status, FLAG_C, reg >= v), wrap8(reg - v)), ..c }
}

/// Result and carry out of a shift or rotate of `v` with carry in `carry`.
pub open spec fn shift_of(kind: Shift, v: u8, carry: bool) -> (u8, bool) {
    match kind {
        Shift::Asl => (wrap8(v * 2), v >= 0x80),
        Shift::Lsr => (v / 2, v % 2 == 1),
        Shift::Rol => (wrap8(v * 2 + if carry { 1int } else { 0int }), v >= 0x80),
        Shift::Ror => ((v / 2 + if carry { 128int } else { 0int }) as u8, v % 2 == 1),
    }
}

// ---------------------------------------------------------------------------
// Bus helpers
// ---------------------------------------------------------------------------

/// Reads the byte at PC and advances PC.
#[verifier::opaque]
pub open spec fn fetch_byte(c: Cpu, b: BusView) -> (Cpu, BusView, u8) {
    let (b1, v) = bus_read(b, c.pc);
    (Cpu { pc: wrap16(c.pc + 1), ..c }, b1, v)
}

/// Reads a little-endian word at PC and advances PC by two.
#[verifier::opaque]
pub open spec fn fetch_word_of(c: Cpu, b: BusView) -> (Cpu, BusView, u16) {
    let (c1, b1, lo) = fetch_byte(c, b);
    let (c2, b2, hi) = fetch_byte(c1, b1);
    (c2, b2, word(lo, hi))
}

/// Stores `v` at the stack pointer, then decrements it.
#[verifier::opaque]
pub open spec fn push_byte(c: Cpu, b: BusView, v: u8) -> (Cpu, BusView) {
    (Cpu { sp: wrap8(c.sp - 1), ..c }, bus_write(b, stack_addr(c.sp), v))
}

/// Increments the stack pointer, then reads the byte it points at.
#[verifier::opaque]
pub open spec fn pop_byte(c: Cpu, b: BusView) -> (Cpu, BusView, u8) {
    let sp = wrap8(c.sp + 1);
    let (b1, v) = bus_read(b, stack_addr(sp));
    (Cpu { sp: sp, ..c }, b1, v)
}

/// Pushes the high byte, then the low byte.
#[verifier::opaque]
pub open spec fn push_word_of(c: Cpu, b: BusView, v: u16) -> (Cpu, BusView) {
    let (c1, b1) = push_byte(c, b, (v / 256) as u8);
    push_byte(c1, b1, (v % 256) as u8)
}

/// Pops the low byte, then the high byte.
#[verifier::opaque]
pub open spec fn pop_word_of(c: Cpu, b: BusView) -> (Cpu, BusView, u16) {
    let (c1, b1, lo) = pop_byte(c, b);
    let (c2, b2, hi) = pop_byte(c1, b1);
    (c2, b2, word(lo, hi))
}

/// A read-modify-write shift of memory at `addr`: the result is written back
/// and the carry out lands in C.
#[verifier::opaque]
pub open spec fn shift_mem_of(c: Cpu, b: BusView, addr: u16, kind: Shift) -> (Cpu, BusView, u8) {
    let (b1, v) = bus_read(b, addr);
    let (r, carry) = shift_of(kind, v, flag(c.status, FLAG_C));
    (Cpu { status: with_flag(c.status, FLAG_C, carry), ..c }, bus_write(b1, addr, r), r)
}

/// Zero-page operand: one address byte, optionally indexed by X or Y within page zero.
#[verifier::opaque]
pub open spec fn zero_page_operand(c: Cpu, b: BusView, mode: AddrMode) -> (Cpu, BusView, u16, bool) {
    let (c1, b1, v) = fetch_byte(c, b);
    let index: u8 = match mode {
        AddrMode::Zpx => c.x,
        AddrMode::Zpy => c.y,
        _ => 0,
    };
    (c1, b1, wrap8(v + index) as u16, false)
}

/// Absolute operand: a two-byte address, optionally indexed by X or Y;
/// indexing that changes the high byte crosses a page.
#[verifier::opaque]
pub open spec fn absolute_operand(c: Cpu, b: BusView, mode: AddrMode) -> (Cpu, BusView, u16, bool) {
    let (c1, b1, base) = fetch_word_of(c, b);
    let index: u8 = match mode {
        AddrMode::Abx => c.x,
        AddrMode::Aby => c.y,
        _ => 0,
    };
    let addr = wrap16(base + index);
    (c1, b1, addr, base / 256 != addr / 256)
}

/// JMP (ind): the target is read from a pointer, which does not carry into its
/// high byte: a pointer at $xxFF takes its high byte from $xx00.
#[verifier::opaque]
pub open spec fn jmp_indirect_operand(c: Cpu, b: BusView) -> (Cpu, BusView, u16, bool) {
    let (c1, b1, ptr) = fetch_word_of(c, b);
    let (b2, lo) = bus_read(b1, ptr);
    let hi_addr = if ptr % 256 == 255 {
        (ptr - 255) as u16
    } else {
        (ptr + 1) as u16
    };
    let (b3, hi) = bus_read(b2, hi_addr);
    (c1, b3, word(lo, hi), false)
}

/// (zp,X): the address is read from the zero-page pointer at operand + X,
/// both bytes of the pointer wrapping within page zero.
#[verifier::opaque]
pub open spec fn indexed_indirect_operand(c: Cpu, b: BusView) -> (Cpu, BusView, u16, bool) {
    let (c1, b1, base) = fetch_byte(c, b);
    let ptr = wrap8(base + c.x);
    let (b2, lo) = bus_read(b1, ptr as u16);
    let (b3, hi) = bus_read(b2, wrap8(ptr + 1) as u16);
    (c1, b3, word(lo, hi), false)
}

/// (zp),Y: the address read from the zero-page pointer, plus Y; crossing a page
/// when the high byte changes.
#[verifier::opaque]
pub open spec fn indirect_indexed_operand(c: Cpu, b: BusView) -> (Cpu, BusView, u16, bool) {
    let (c1, b1, ptr) = fetch_byte(c, b);
    let (b2, lo) = bus_read(b1, ptr as u16);
    let (b3, hi) = bus_read(b2, wrap8(ptr + 1) as u16);
    let base = word(lo, hi);
    let addr = wrap16(base + c.y);
    (c1, b3, addr, base / 256 != addr / 256)
}

/// Effective address of the operand for `mode`, with the bytes it consumed and
/// whether indexing crossed a page.
#[verifier::opaque]
pub open spec fn operand(c: Cpu, b: BusView, mode: AddrMode) -> (Cpu, BusView, u16, bool) {
    match mode {
        AddrMode::Imm => (Cpu { pc: wrap16(c.pc + 1), ..c }, b, c.pc, false),
        AddrMode::Zp | AddrMode::Zpx | AddrMode::Zpy => zero_page_operand(c, b, mode),
        AddrMode::Abs | AddrMode::Abx | AddrMode::Aby => absolute_operand(c, b, mode),
        AddrMode::Ind => jmp_indirect_operand(c, b),
        AddrMode::Izx => indexed_indirect_operand(c, b),
        AddrMode::Izy => indirect_indexed_operand(c, b),
        AddrMode::Rel => {
            let (c1, b1, off) = fetch_byte(c, b);
            (c1, b1, wrap16(c1.pc + signed(off)), false)
        },
        AddrMode::Imp | AddrMode::Acc => (c, b, 0, false),
    }
}

// ---------------------------------------------------------------------------
// Instruction semantics
// ---------------------------------------------------------------------------

/// Status byte that PLP and RTI install from a popped byte: U forced on, B off.
pub open spec fn pulled_status(s: u8) -> u8 {
    (s | FLAG_U) & !FLAG_B
}

/// Operations that read or write their operand once.
#[verifier::opaque]
pub open spec fn access_op(c: Cpu, b: BusView, op: Op, addr: u16, cycles: u8) -> (Cpu, BusView, u8) {
    match op {
        Op::Load(r) => {
            let (b1, v) = bus_read(b, addr);
            (c.with_reg(r, v).with_nz(v), b1, cycles)
        },
        Op::Store(r) => (c, bus_write(b, addr, c.reg(r)), cycles),
        Op::Lax => {
            let (b1, v) = bus_read(b, addr);
            (Cpu { a: v, x: v, ..c }.with_nz(v), b1, cycles)
        },
        Op::Sax => (c, bus_write(b, addr, c.a & c.x), cycles),
        Op::And => {
            let (b1, v) = bus_read(b, addr);
            (Cpu { a: c.a & v, ..c }.with_nz(c.a & v), b1, cycles)
        },
        Op::Ora => {
            let (b1, v) = bus_read(b, addr);
            (Cpu { a: c.a | v, ..c }.with_nz(c.a | v), b1, cycles)
        },
        Op::Eor => {
            let (b1, v) = bus_read(b, addr);
            (Cpu { a: c.a ^ v, ..c }.with_nz(c.a ^ v), b1, cycles)
        },
        Op::Adc => {
            let (b1, v) = bus_read(b, addr);
            (adc_of(c, v), b1, cycles)
        },
        Op::Sbc => {
            let (b1, v) = bus_read(b, addr);
            (sbc_of(c, v), b1, cycles)
        },
        Op::Compare(r) => {
            let (b1, v) = bus_read(b, addr);
            (compare_of(c, c.reg(r), v), b1, cycles)
        },
        Op::Bit => {
            let (b1, v) = bus_read(b, addr);
            let s = with_flag(c.status, FLAG_Z, c.a & v == 0);
            let s = with_flag(s, FLAG_N, v & 0x80 != 0);
            let s = with_flag(s, FLAG_V, v & 0x40 != 0);
            (Cpu { status: s, ..c }, b1, cycles)
        },
        _ => (c, b, cycles),
    }
}

/// Read-modify-write operations on memory.
#[verifier::opaque]
pub open spec fn modify_op(c: Cpu, b: BusView, op: Op, addr: u16, cycles: u8) -> (Cpu, BusView, u8) {
    match op {
        Op::Inc => {
            let (b1, v) = bus_read(b, addr);
            let w = wrap8(v + 1);
            (c.with_nz(w), bus_write(b1, addr, w), cycles)
        },
        Op::Dec => {
            let (b1, v) = bus_read(b, addr);
            let w = wrap8(v - 1);
            (c.with_nz(w), bus_write(b1, addr, w), cycles)
        },
        Op::ShiftMem(k) => {
            let (c1, b1, r) = shift_mem_of(c, b, addr, k);
            (c1.with_nz(r), b1, cycles)
        },
        Op::Dcp => {
            let (b1, v) = bus_read(b, addr);
            let w = wrap8(v - 1);
            (compare_of(c, c.a, w), bus_write(b1, addr, w), cycles)
        },
        Op::Isc => {
            let (b1, v) = bus_read(b, addr);
            let w = wrap8(v + 1);
            (sbc_of(c, w), bus_write(b1, addr, w), cycles)
        },
        Op::Rla => {
            let (c1, b1, r) = shift_mem_of(c, b, addr, Shift::Rol);
            (Cpu { a: c1.a & r, ..c1 }.with_nz(c1.a & r), b1, cycles)
        },
        Op::Slo => {
            let (c1, b1, r) = shift_mem_of(c, b, addr, Shift::Asl);
            (Cpu { a: c1.a | r, ..c1 }.with_nz(c1.a | r), b1, cycles)
        },
        Op::Sre => {
            let (c1, b1, r) = shift_mem_of(c, b, addr, Shift::Lsr);
            (Cpu { a: c1.a ^ r, ..c1 }.with_nz(c1.a ^ r), b1, cycles)
        },
        Op::Rra => {
            let (c1, b1, r) = shift_mem_of(c, b, addr, Shift::Ror);
            (adc_of(c1, r), b1, cycles)
        },
        _ => (c, b, cycles),
    }
}

/// Operations on registers and flags alone.
#[verifier::opaque]
pub open spec fn register_op(c: Cpu, b: BusView, op: Op, addr: u16, cycles: u8) -> (Cpu, BusView, u8) {
    match op {
        Op::Tax => (Cpu { x: c.a, ..c }.with_nz(c.a), b, cycles),
        Op::Tay => (Cpu { y: c.a, ..c }.with_nz(c.a), b, cycles),
        Op::Txa => (Cpu { a: c.x, ..c }.with_nz(c.x), b, cycles),
        Op::Tya => (Cpu { a: c.y, ..c }.with_nz(c.y), b, cycles),
        Op::Tsx => (Cpu { x: c.sp, ..c }.with_nz(c.sp), b, cycles),
        Op::Txs => (Cpu { sp: c.x, ..c }, b, cycles),
        Op::IncReg(r) => {
            let w = wrap8(c.reg(r) + 1);
            (c.with_reg(r, w).with_nz(w), b, cycles)
        },
        Op::DecReg(r) => {
            let w = wrap8(c.reg(r) - 1);
            (c.with_reg(r, w).with_nz(w), b, cycles)
        },
        Op::ShiftAcc(k) => {
            let (r, carry) = shift_of(k, c.a, flag(c.status, FLAG_C));
            (Cpu { a: r, status: with_flag(c.status, FLAG_C, carry), ..c }.with_nz(r), b, cycles)
        },
        Op::SetFlag(f, on) => (Cpu { status: with_flag(c.status, f, on), ..c }, b, cycles),
        Op::Nop => (c, b, cycles),
        _ => (c, b, cycles),
    }
}

/// Stack operations, jumps, branches and BRK/RTI.
#[verifier::opaque]
pub open spec fn flow_op(c: Cpu, b: BusView, op: Op, addr: u16, cycles: u8) -> (Cpu, BusView, u8) {
    match op {
        Op::Pha => {
            let (c1, b1) = push_byte(c, b, c.a);
            (c1, b1, cycles)
        },
        Op::Pla => {
            let (c1, b1, v) = pop_byte(c, b);
            (Cpu { a: v, ..c1 }.with_nz(v), b1, cycles)
        },
        Op::Php => {
            let (c1, b1) = push_byte(c, b, c.status | FLAG_B | FLAG_U);
            (c1, b1, cycles)
        },
        Op::Plp => {
            let (c1, b1, s) = pop_byte(c, b);
            (Cpu { status: pulled_status(s), ..c1 }, b1, cycles)
        },
        Op::Jmp => (Cpu { pc: addr, ..c }, b, cycles),
        Op::Jsr => {
            let (c1, b1) = push_word_of(c, b, wrap16(c.pc - 1));
            (Cpu { pc: addr, ..c1 }, b1, cycles)
        },
        Op::Rts => {
            let (c1, b1, w) = pop_word_of(c, b);
            (Cpu { pc: wrap16(w + 1), ..c1 }, b1, cycles)
        },
        Op::Branch(f, want) => {
            if flag(c.status, f) == want {
                (Cpu { pc: addr, ..c }, b, if c.pc / 256 != addr / 256 { 4 } else { 3 })
            } else {
                (c, b, 2)
            }
        },
        Op::Brk => {
            let pc = wrap16(c.pc + 1);
            let (c1, b1) = push_word_of(Cpu { pc: pc, ..c }, b, pc);
            let (c2, b2) = push_byte(c1, b1, c.status | FLAG_B | FLAG_U);
            let (b3, lo) = bus_read(b2, 0xFFFE);
            let (b4, hi) = bus_read(b3, 0xFFFF);
            (Cpu { pc: word(lo, hi), status: with_flag(c2.status, FLAG_I, true), ..c2 }, b4, cycles)
        },
        Op::Rti => {
            let (c1, b1, s) = pop_byte(c, b);
            let (c2, b2, w) = pop_word_of(Cpu { status: pulled_status(s), ..c1 }, b1);
            (Cpu { pc: w, ..c2 }, b2, cycles)
        },
        _ => (c, b, cycles),
    }
}

/// Effect of operation `op` on operand address `addr`, given the cycle count
/// `cycles` of the instruction; returns the cycles it took.
#[verifier::opaque]
pub open spec fn run_op(c: Cpu, b: BusView, op: Op, addr: u16, cycles: u8) -> (Cpu, BusView, u8) {
    match op {
        Op::Load(_) | Op::Store(_) | Op::Lax | Op::Sax | Op::And | Op::Ora | Op::Eor | Op::Adc | Op::Sbc | Op::Compare(_) | Op::Bit => access_op(c, b, op, addr, cycles),
        Op::Inc | Op::Dec | Op::ShiftMem(_) | Op::Dcp | Op::Isc | Op::Rla | Op::Slo | Op::Sre | Op::Rra => modify_op(c, b, op, addr, cycles),
        Op::Tax | Op::Tay | Op::Txa | Op::Tya | Op::Tsx | Op::Txs | Op::IncReg(_) | Op::DecReg(_) | Op::ShiftAcc(_) | Op::SetFlag(_, _) | Op::Nop => register_op(c, b, op, addr, cycles),
        Op::Pha | Op::Pla | Op::Php | Op::Plp | Op::Jmp | Op::Jsr | Op::Rts | Op::Branch(_, _) | Op::Brk | Op::Rti => flow_op(c, b, op, addr, cycles),
    }
}

/// Executes a decoded instruction whose opcode byte was already fetched:
/// resolve the operand, then apply the operation. Returns the cycles taken.
#[verifier::opaque]
pub open spec fn run_instr(c: Cpu, b: BusView, ins: Instr) -> (Cpu, BusView, u8) {
    let (c1, b1, addr, crossed) = operand(c, b, ins.mode);
    let cycles = if ins.page_penalty && crossed {
        (ins.cycles + 1) as u8
    } else {
        ins.cycles
    };
    run_op(c1, b1, ins.op, addr, cycles)
}

/// One instruction: fetch the opcode, execute it, count its cycles.
pub open spec fn step_of(c: Cpu, b: BusView) -> (Cpu, BusView, u8) {
    let (c1, b1, opcode) = fetch_byte(c, b);
    let (c2, b2, n) = run_instr(c1, b1, decode(opcode));
    (Cpu { cycles: (c2.cycles + n) as u64, ..c2 }, b2, n)
}

/// NMI: push PC and status (B clear), set I, jump through $FFFA; 7 cycles.
pub open spec fn nmi_of(c: Cpu, b: BusView) -> (Cpu, BusView) {
    let (c1, b1) = push_word_of(c, b, c.pc);
    let (c2, b2) = push_byte(c1, b1, c.status & !0x10u8);
    let (b3, lo) = bus_read(b2, 0xFFFA);
    let (b4, hi) = bus_read(b3, 0xFFFB);
    (
        Cpu {
            pc: word(lo, hi),
            status: c2.status | FLAG_I,
            cycles: (c2.cycles + 7) as u64,
            ..c2
        },
        b4,
    )
}

/// RESET: registers to their power-up values, PC from the vector at $FFFC; 8 cycles.
pub open spec fn reset_of(c: Cpu, b: BusView) -> (Cpu, BusView) {
    let (b1, lo) = bus_read(b, 0xFFFC);
    let (b2, hi) = bus_read(b1, 0xFFFD);
    (
        Cpu {
            pc: word(lo, hi),
            sp: 0xFD,
            status: 0x24,
            a: 0,
            x: 0,
            y: 0,
            cycles: (c.cycles + 8) as u64,
        },
        b2,
    )
}

// ---------------------------------------------------------------------------
// Bit-level facts used by the implementation
// ---------------------------------------------------------------------------

proof fn lemma_word(lo: u16, hi: u16)
    requires
        lo < 256,
        hi < 256,
    ensures
        (hi << 8u16) | lo == hi * 256 + lo,
{
    assert((hi << 8u16) | lo == hi * 256 + lo) by { lemma_word_bits(); }
}

proof fn lemma_zero_page_pointer(ptr: u16, next: u16)
    requires
        ptr < 256,
        next == ptr + 1,
    ensures
        ptr & 0x00FF == ptr,
        next & 0x00FF == next % 256,
{
    assert(ptr & 0x00FF == ptr) by { lemma_word_bits(); }
    assert(next & 0x00FF == next % 256) by { lemma_word_bits(); }
}

proof fn lemma_same_page(x: u16, y: u16)
    ensures
        ((x & 0xFF00) != (y & 0xFF00)) == (x / 256 != y / 256),
{
    assert(((x & 0xFF00) != (y & 0xFF00)) == (x / 256 != y / 256)) by { lemma_word_bits(); }
}

proof fn lemma_adc_overflow(a: u16, v: u16, c: u16, r: u16)
    requires
        a < 256,
        v < 256,
        c < 2,
        r == a + v + c,
    ensures
        ((!(a ^ v) & (a ^ r)) & 0x80 != 0) == ((a < 128 && v < 128 && r >= 128) || (a >= 128
            && v >= 128 && r < 384)),
{
    assert(((!(a ^ v) & (a ^ r)) & 0x80 != 0) == ((a < 128 && v < 128 && r >= 128) || (a >= 128
        && v >= 128 && r < 384))) by (bit_vector)
        requires
            a < 256,
            v < 256,
            c < 2,
            r == a + v + c,
    ;
}

impl Cpu {
    pub fn new() -> (c: Self)
        ensures
            c == (Cpu { a: 0, x: 0, y: 0, sp: 0xFD, pc: 0, status: 0x24, cycles: 0 }),
    {
        Cpu { a: 0, x: 0, y: 0, sp: 0xFD, pc: 0, status: 0x24, cycles: 0 }
    }

    /// Loads PC from the reset vector at $FFFC/$FFFD and sets the power-up registers.
    pub fn reset(&mut self, bus: &mut Bus)
        requires
            old(bus)@.wf(),
            old(self).cycles <= u64::MAX - 8,
        ensures
            (*final(self), final(bus)@) === reset_of(*old(self), old(bus)@),
            final(bus)@.wf(),
            final(bus)@.ppu.same_beam(old(bus)@.ppu),
            final(bus).cartridge == old(bus).cartridge,
            final(self).cycles == old(self).cycles + 8,
    {
        let lo = bus.read(0xFFFC) as u16;
        let hi = bus.read(0xFFFD) as u16;
        proof {
            lemma_word(lo, hi);
        }
        self.pc = (hi << 8) | lo;
        self.sp = 0xFD;
        self.status = 0x24;
        self.a = 0;
        self.x = 0;
        self.y = 0;
        self.cycles = self.cycles + 8;
    }

    /// Fetches and executes one instruction; returns the cycles it took.
    pub fn step(&mut self, bus: &mut Bus) -> (elapsed: u8)
        requires
            old(bus)@.wf(),
            old(self).cycles <= u64::MAX - 8,
        ensures
            (*final(self), final(bus)@, elapsed) === step_of(*old(self), old(bus)@),
            2 <= elapsed <= 8,
            final(bus)@.wf(),
            final(bus)@.ppu.same_beam(old(bus)@.ppu),
            final(self).cycles == old(self).cycles + elapsed,
    {
        let opcode = self.fetch(bus);
        let elapsed = self.execute(opcode, bus);
        self.cycles = self.cycles + elapsed as u64;
        elapsed
    }

    /// Non-maskable interrupt: saves PC and status (B clear), jumps through $FFFA/$FFFB.
    pub fn nmi(&mut self, bus: &mut Bus)
        requires
            old(bus)@.wf(),
            old(self).cycles <= u64::MAX - 7,
        ensures
            (*final(self), final(bus)@) === nmi_of(*old(self), old(bus)@),
            final(bus)@.wf(),
            final(bus)@.ppu.same_beam(old(bus)@.ppu),
            final(self).cycles == old(self).cycles + 7,
    {
        let pc = self.pc;
        proof {
            reveal(push_word_of);
            assert(pc >> 8u16 == pc / 256) by { lemma_word_bits(); }
            assert(pc & 0xFFu16 == pc % 256) by { lemma_word_bits(); }
        }
        self.push(bus, (pc >> 8) as u8);
        self.push(bus, (pc & 0xFF) as u8);
        let status = self.status & !0x10;
        self.push(bus, status);
        self.status = self.status | FLAG_I;
        let lo = bus.read(0xFFFA) as u16;
        let hi = bus.read(0xFFFB) as u16;
        proof {
            lemma_word(lo, hi);
        }
        self.pc = (hi << 8) | lo;
        self.cycles = self.cycles + 7;
    }

    // -------------------------------------------------------------------------
    // Flags
    // -------------------------------------------------------------------------

    fn set_flag(&mut self, flag: u8, condition: bool)
        ensures
            *final(self) == (Cpu { status: with_flag(old(self).status, flag, condition), ..*old(self) }),
    {
        if condition {
            self.status = self.status | flag;
        } else {
            self.status = self.status & !flag;
        }
    }

    fn get_flag(&self, f: u8) -> (r: bool)
        ensures
            r == flag(self.status, f),
    {
        self.status & f != 0
    }

    fn update_nz(&mut self, value: u8)
        ensures
            *final(self) == old(self).with_nz(value),
    {
        self.set_flag(FLAG_Z, value == 0);
        proof {
            assert((value & 0x80 != 0) == (value >= 0x80)) by { lemma_byte_bits(); }
        }
        self.set_flag(FLAG_N, value & 0x80 != 0);
    }

    // -------------------------------------------------------------------------
    // Fetch and stack
    // -------------------------------------------------------------------------

    fn fetch(&mut self, bus: &mut Bus) -> (r: u8)
        requires
            old(bus)@.wf(),
        ensures
            (*final(self), final(bus)@, r) === fetch_byte(*old(self), old(bus)@),
            final(bus)@.wf(),
            final(bus)@.ppu.same_beam(old(bus)@.ppu),
            *final(self) == (Cpu { pc: wrap16(old(self).pc + 1), ..*old(self) }),
    {
        proof {
            reveal(fetch_byte);
        }
        let val = bus.read(self.pc);
        self.pc = self.pc.wrapping_add(1);
        val
    }

    fn fetch_word(&mut self, bus: &mut Bus) -> (r: u16)
        requires
            old(bus)@.wf(),
        ensures
            (*final(self), final(bus)@, r) === fetch_word_of(*old(self), old(bus)@),
            final(bus)@.wf(),
            final(bus)@.ppu.same_beam(old(bus)@.ppu),
            *final(self) == (Cpu { pc: wrap16(old(self).pc + 2), ..*old(self) }),
    {
        proof {
            reveal(fetch_word_of);
        }
        let lo = self.fetch(bus) as u16;
        let hi = self.fetch(bus) as u16;
        proof {
            lemma_word(lo, hi);
        }
        (hi << 8) | lo
    }

    fn push(&mut self, bus: &mut Bus, value: u8)
        requires
            old(bus)@.wf(),
        ensures
            (*final(self), final(bus)@) === push_byte(*old(self), old(bus)@, value),
            final(bus)@.wf(),
            final(bus)@.ppu.same_beam(old(bus)@.ppu),
            *final(self) == (Cpu { sp: wrap8(old(self).sp - 1), ..*old(self) }),
    {
        proof {
            reveal(push_byte);
        }
        let sp = self.sp;
        proof {
            assert(0x0100u16 | sp as u16 == 0x0100 + sp as u16) by { lemma_word_bits(); }
        }
        bus.write(0x0100 | self.sp as u16, value);
        self.sp = self.sp.wrapping_sub(1);
    }

    fn pop(&mut self, bus: &mut Bus) -> (r: u8)
        requires
            old(bus)@.wf(),
        ensures
            (*final(self), final(bus)@, r) === pop_byte(*old(self), old(bus)@),
            final(bus)@.wf(),
            final(bus)@.ppu.same_beam(old(bus)@.ppu),
            *final(self) == (Cpu { sp: wrap8(old(self).sp + 1), ..*old(self) }),
    {
        proof {
            reveal(pop_byte);
        }
        self.sp = self.sp.wrapping_add(1);
        let sp = self.sp;
        proof {
            assert(0x0100u16 | sp as u16 == 0x0100 + sp as u16) by { lemma_word_bits(); }
        }
        bus.read(0x0100 | self.sp as u16)
    }

    fn push_word(&mut self, bus: &mut Bus, value: u16)
        requires
            old(bus)@.wf(),
        ensures
            (*final(self), final(bus)@) === push_word_of(*old(self), old(bus)@, value),
            final(bus)@.wf(),
            final(bus)@.ppu.same_beam(old(bus)@.ppu),
            *final(self) == (Cpu { sp: wrap8(old(self).sp - 2), ..*old(self) }),
    {
        proof {
            reveal(push_word_of);
        }
        proof {
            assert(value >> 8u16 == value / 256) by { lemma_word_bits(); }
            assert(value & 0xFFu16 == value % 256) by { lemma_word_bits(); }
        }
        self.push(bus, (value >> 8) as u8);
        self.push(bus, (value & 0xFF) as u8);
    }

    fn pop_word(&mut self, bus: &mut Bus) -> (r: u16)
        requires
            old(bus)@.wf(),
        ensures
            (*final(self), final(bus)@, r) === pop_word_of(*old(self), old(bus)@),
            final(bus)@.wf(),
            final(bus)@.ppu.same_beam(old(bus)@.ppu),
            *final(self) == (Cpu { sp: wrap8(old(self).sp + 2), ..*old(self) }),
    {
        proof {
            reveal(pop_word_of);
        }
        let lo = self.pop(bus) as u16;
        let hi = self.pop(bus) as u16;
        proof {
            lemma_word(lo, hi);
        }
        (hi << 8) | lo
    }

    // -------------------------------------------------------------------------
    // Operand addressing
    // -------------------------------------------------------------------------

    /// Resolves the operand address for `mode`; also whether indexing crossed a page.
    fn get_address(&mut self, mode: AddrMode, bus: &mut Bus) -> (r: (u16, bool))
        requires
            old(bus)@.wf(),
        ensures
            (*final(self), final(bus)@, r.0, r.1) === operand(*old(self), old(bus)@, mode),
            final(bus)@.wf(),
            final(bus)@.ppu.same_beam(old(bus)@.ppu),
            final(self).cycles == old(self).cycles,
    {
        proof {
            reveal(operand);
        }
        match mode {
            AddrMode::Imm => {
                let addr = self.pc;
                self.pc = self.pc.wrapping_add(1);
                (addr, false)
            },
            AddrMode::Zp | AddrMode::Zpx | AddrMode::Zpy => self.zero_page_address(mode, bus),
            AddrMode::Abs | AddrMode::Abx | AddrMode::Aby => self.absolute_address(mode, bus),
            AddrMode::Ind => self.jmp_indirect_address(bus),
            AddrMode::Izx => self.indexed_indirect_address(bus),
            AddrMode::Izy => self.indirect_indexed_address(bus),
            AddrMode::Rel => {
                let offset = self.fetch(bus);
                let ext: u16 = if offset < 0x80 { offset as u16 } else { offset as u16 + 0xFF00 };
                let addr = self.pc.wrapping_add(ext);
                (addr, false)
            },
            AddrMode::Imp | AddrMode::Acc => (0, false),
        }
    }

    fn zero_page_address(&mut self, mode: AddrMode, bus: &mut Bus) -> (r: (u16, bool))
        requires
            old(bus)@.wf(),
        ensures
            (*final(self), final(bus)@, r.0, r.1) === zero_page_operand(*old(self), old(bus)@, mode),
            final(bus)@.wf(),
            final(bus)@.ppu.same_beam(old(bus)@.ppu),
            final(self).cycles == old(self).cycles,
    {
        proof {
            reveal(zero_page_operand);
        }
        let base = self.fetch(bus);
        let index: u8 = match mode {
            AddrMode::Zpx => self.x,
            AddrMode::Zpy => self.y,
            _ => 0,
        };
        (base.wrapping_add(index) as u16, false)
    }

    fn absolute_address(&mut self, mode: AddrMode, bus: &mut Bus) -> (r: (u16, bool))
        requires
            old(bus)@.wf(),
        ensures
            (*final(self), final(bus)@, r.0, r.1) === absolute_operand(*old(self), old(bus)@, mode),
            final(bus)@.wf(),
            final(bus)@.ppu.same_beam(old(bus)@.ppu),
            final(self).cycles == old(self).cycles,
    {
        proof {
            reveal(absolute_operand);
        }
        let base = self.fetch_word(bus);
        let index: u8 = match mode {
            AddrMode::Abx => self.x,
            AddrMode::Aby => self.y,
            _ => 0,
        };
        let addr = base.wrapping_add(index as u16);
        proof {
            lemma_same_page(base, addr);
        }
        let crossed = (base & 0xFF00) != (addr & 0xFF00);
        (addr, crossed)
    }

    fn jmp_indirect_address(&mut self, bus: &mut Bus) -> (r: (u16, bool))
        requires
            old(bus)@.wf(),
        ensures
            (*final(self), final(bus)@, r.0, r.1) === jmp_indirect_operand(*old(self), old(bus)@),
            final(bus)@.wf(),
            final(bus)@.ppu.same_beam(old(bus)@.ppu),
            final(self).cycles == old(self).cycles,
    {
        proof {
            reveal(jmp_indirect_operand);
        }
        let ptr = self.fetch_word(bus);
        let lo = bus.read(ptr) as u16;
        proof {
            assert((ptr & 0x00FF == 0x00FF) == (ptr % 256 == 255)) by { lemma_word_bits(); }
            assert(ptr & 0x00FF == 0x00FF ==> ptr & 0xFF00 == ptr - 255) by { lemma_word_bits(); }
        }
        let hi = if ptr & 0x00FF == 0x00FF {
            bus.read(ptr & 0xFF00) as u16
        } else {
            bus.read(ptr + 1) as u16
        };
        proof {
            lemma_word(lo, hi);
        }
        ((hi << 8) | lo, false)
    }

    fn indexed_indirect_address(&mut self, bus: &mut Bus) -> (r: (u16, bool))
        requires
            old(bus)@.wf(),
        ensures
            (*final(self), final(bus)@, r.0, r.1) === indexed_indirect_operand(*old(self), old(bus)@),
            final(bus)@.wf(),
            final(bus)@.ppu.same_beam(old(bus)@.ppu),
            final(self).cycles == old(self).cycles,
    {
        proof {
            reveal(indexed_indirect_operand);
        }
        let base = self.fetch(bus);
        let ptr = base.wrapping_add(self.x) as u16;
        let next = ptr + 1;
        proof {
            lemma_zero_page_pointer(ptr, next);
        }
        let lo = bus.read(ptr & 0x00FF) as u16;
        let hi = bus.read(next & 0x00FF) as u16;
        proof {
            lemma_word(lo, hi);
        }
        ((hi << 8) | lo, false)
    }

    fn indirect_indexed_address(&mut self, bus: &mut Bus) -> (r: (u16, bool))
        requires
            old(bus)@.wf(),
        ensures
            (*final(self), final(bus)@, r.0, r.1) === indirect_indexed_operand(*old(self), old(bus)@),
            final(bus)@.wf(),
            final(bus)@.ppu.same_beam(old(bus)@.ppu),
            final(self).cycles == old(self).cycles,
    {
        proof {
            reveal(indirect_indexed_operand);
        }
        let ptr = self.fetch(bus) as u16;
        let next = ptr + 1;
        proof {
            lemma_zero_page_pointer(ptr, next);
        }
        let lo = bus.read(ptr & 0x00FF) as u16;
        let hi = bus.read(next & 0x00FF) as u16;
        proof {
            lemma_word(lo, hi);
        }
        let base = (hi << 8) | lo;
        let addr = base.wrapping_add(self.y as u16);
        proof {
            lemma_same_page(base, addr);
        }
        let crossed = (base & 0xFF00) != (addr & 0xFF00);
        (addr, crossed)
    }

    // -------------------------------------------------------------------------
    // Arithmetic
    // -------------------------------------------------------------------------

    fn adc(&mut self, value: u8)
        ensures
            *final(self) == adc_of(*old(self), value),
    {
        let a = self.a as u16;
        let v = value as u16;
        let c: u16 = if self.get_flag(FLAG_C) { 1 } else { 0 };
        let result = a + v + c;
        proof {
            lemma_adc_overflow(a, v, c, result);
        }
        self.set_flag(FLAG_C, result > 0xFF);
        self.set_flag(FLAG_V, (!(a ^ v) & (a ^ result)) & 0x80 != 0);
        self.a = (result % 256) as u8;
        self.update_nz(self.a);
    }

    fn sbc(&mut self, value: u8)
        ensures
            *final(self) == sbc_of(*old(self), value),
    {
        self.adc(value ^ 0xFF);
    }

    fn compare(&mut self, reg: u8, value: u8)
        ensures
            *final(self) == compare_of(*old(self), reg, value),
    {
        let result = reg.wrapping_sub(value);
        self.set_flag(FLAG_C, reg >= value);
        self.update_nz(result);
    }

    // -------------------------------------------------------------------------
    // Read-modify-write shifts
    // -------------------------------------------------------------------------

    fn asl_mem(&mut self, bus: &mut Bus, addr: u16) -> (r: u8)
        requires
            old(bus)@.wf(),
        ensures
            (*final(self), final(bus)@, r) === shift_mem_of(*old(self), old(bus)@, addr, Shift::Asl),
            final(bus)@.wf(),
            final(bus)@.ppu.same_beam(old(bus)@.ppu),
            *final(self) == (Cpu { status: final(self).status, ..*old(self) }),
    {
        proof {
            reveal(shift_mem_of);
        }
        let v = bus.read(addr);
        proof {
            assert((v & 0x80 != 0) == (v >= 0x80)) by { lemma_byte_bits(); }
            assert(v << 1u8 == (v * 2) % 256) by { lemma_byte_shl(); }
        }
        self.set_flag(FLAG_C, v & 0x80 != 0);
        let result = v << 1;
        bus.write(addr, result);
        result
    }

    fn lsr_mem(&mut self, bus: &mut Bus, addr: u16) -> (r: u8)
        requires
            old(bus)@.wf(),
        ensures
            (*final(self), final(bus)@, r) === shift_mem_of(*old(self), old(bus)@, addr, Shift::Lsr),
            final(bus)@.wf(),
            final(bus)@.ppu.same_beam(old(bus)@.ppu),
            *final(self) == (Cpu { status: final(self).status, ..*old(self) }),
    {
        proof {
            reveal(shift_mem_of);
        }
        let v = bus.read(addr);
        proof {
            assert((v & 0x01 != 0) == (v % 2 == 1)) by { lemma_byte_bits(); }
            assert(v >> 1u8 == v / 2) by { lemma_byte_bits(); }
        }
        self.set_flag(FLAG_C, v & 0x01 != 0);
        let result = v >> 1;
        bus.write(addr, result);
        result
    }

    fn rol_mem(&mut self, bus: &mut Bus, addr: u16) -> (r: u8)
        requires
            old(bus)@.wf(),
        ensures
            (*final(self), final(bus)@, r) === shift_mem_of(*old(self), old(bus)@, addr, Shift::Rol),
            final(bus)@.wf(),
            final(bus)@.ppu.same_beam(old(bus)@.ppu),
            *final(self) == (Cpu { status: final(self).status, ..*old(self) }),
    {
        proof {
            reveal(shift_mem_of);
        }
        let v = bus.read(addr);
        let new_carry = v & 0x80 != 0;
        let c: u8 = if self.get_flag(FLAG_C) { 1 } else { 0 };
        proof {
            assert((v & 0x80 != 0) == (v >= 0x80)) by { lemma_byte_bits(); }
            assert((v << 1u8) | c == (v * 2 + c) % 256) by { lemma_byte_rol(); }
        }
        let result = (v << 1) | c;
        self.set_flag(FLAG_C, new_carry);
        bus.write(addr, result);
        result
    }

    fn ror_mem(&mut self, bus: &mut Bus, addr: u16) -> (r: u8)
        requires
            old(bus)@.wf(),
        ensures
            (*final(self), final(bus)@, r) === shift_mem_of(*old(self), old(bus)@, addr, Shift::Ror),
            final(bus)@.wf(),
            final(bus)@.ppu.same_beam(old(bus)@.ppu),
            *final(self) == (Cpu { status: final(self).status, ..*old(self) }),
    {
        proof {
            reveal(shift_mem_of);
        }
        let v = bus.read(addr);
        let new_carry = v & 0x01 != 0;
        let c: u8 = if self.get_flag(FLAG_C) { 1 } else { 0 };
        proof {
            assert((v & 0x01 != 0) == (v % 2 == 1)) by { lemma_byte_bits(); }
            assert((v >> 1u8) | (c << 7u8) == v / 2 + c * 128) by { lemma_byte_bits(); }
        }
        let result = (v >> 1) | (c << 7);
        self.set_flag(FLAG_C, new_carry);
        bus.write(addr, result);
        result
    }

    // -------------------------------------------------------------------------
    // Decode and execute
    // -------------------------------------------------------------------------

    /// Branches to `target` when `condition` holds; 2 cycles, 3 when taken,
    /// 4 when taken across a page.
    fn branch(&mut self, condition: bool, target: u16) -> (r: u8)
        ensures
            *final(self) == (if condition { Cpu { pc: target, ..*old(self) } } else { *old(self) }),
            r == (if !condition {
                2u8
            } else if old(self).pc / 256 != target / 256 {
                4u8
            } else {
                3u8
            }),
    {
        if condition {
            proof {
                lemma_same_page(self.pc, target);
            }
            let page_crossed = (self.pc & 0xFF00) != (target & 0xFF00);
            self.pc = target;
            if page_crossed {
                4
            } else {
                3
            }
        } else {
            2
        }
    }

    /// Executes the instruction with opcode `opcode` (already fetched).
    fn execute(&mut self, opcode: u8, bus: &mut Bus) -> (r: u8)
        requires
            old(bus)@.wf(),
        ensures
            (*final(self), final(bus)@, r) === run_instr(*old(self), old(bus)@, decode(opcode)),
            2 <= r <= 8,
            final(bus)@.wf(),
            final(bus)@.ppu.same_beam(old(bus)@.ppu),
            final(self).cycles == old(self).cycles,
    {
        proof {
            reveal(run_instr);
        }
        let ins = decode_opcode(opcode);
        let (addr, crossed) = self.get_address(ins.mode, bus);
        let cycles = if ins.page_penalty && crossed {
            ins.cycles + 1
        } else {
            ins.cycles
        };
        self.apply(ins.op, addr, cycles, bus)
    }

    /// Applies operation `op` to operand address `addr`.
    fn apply(&mut self, op: Op, addr: u16, cycles: u8, bus: &mut Bus) -> (r: u8)
        requires
            old(bus)@.wf(),
            2 <= cycles <= 8,
        ensures
            (*final(self), final(bus)@, r) === run_op(*old(self), old(bus)@, op, addr, cycles),
            2 <= r <= 8,
            final(bus)@.wf(),
            final(bus)@.ppu.same_beam(old(bus)@.ppu),
            final(self).cycles == old(self).cycles,
    {
        proof {
            reveal(run_op);
        }
        match op {
            Op::Load(_) | Op::Store(_) | Op::Lax | Op::Sax | Op::And | Op::Ora | Op::Eor
            | Op::Adc | Op::Sbc | Op::Compare(_) | Op::Bit => self.apply_access(op, addr, cycles, bus),
            Op::Inc | Op::Dec | Op::ShiftMem(_) | Op::Dcp | Op::Isc | Op::Rla | Op::Slo | Op::Sre
            | Op::Rra => self.apply_modify(op, addr, cycles, bus),
            Op::Tax | Op::Tay | Op::Txa | Op::Tya | Op::Tsx | Op::Txs | Op::IncReg(_)
            | Op::DecReg(_) | Op::ShiftAcc(_) | Op::SetFlag(_, _) | Op::Nop => {
                let r = self.apply_register(op, cycles);
                assert(register_op(*old(self), old(bus)@, op, addr, cycles) == (*self, bus@, r));
                r
            },
            Op::Pha | Op::Pla | Op::Php | Op::Plp | Op::Jmp | Op::Jsr | Op::Rts | Op::Branch(_, _)
            | Op::Brk | Op::Rti => self.apply_flow(op, addr, cycles, bus),
        }
    }

    fn set_reg(&mut self, r: Reg, v: u8)
        ensures
            *final(self) == old(self).with_reg(r, v),
    {
        match r {
            Reg::A => self.a = v,
            Reg::X => self.x = v,
            Reg::Y => self.y = v,
        }
    }

    fn get_reg(&self, r: Reg) -> (v: u8)
        ensures
            v == self.reg(r),
    {
        match r {
            Reg::A => self.a,
            Reg::X => self.x,
            Reg::Y => self.y,
        }
    }

    /// Loads, stores and the operations that read their operand.
    fn apply_access(&mut self, op: Op, addr: u16, cycles: u8, bus: &mut Bus) -> (r: u8)
        requires
            old(bus)@.wf(),
            op is Load || op is Store || op is Lax || op is Sax || op is And || op is Ora || op is Eor
                || op is Adc || op is Sbc || op is Compare || op is Bit,
        ensures
            (*final(self), final(bus)@, r) === access_op(*old(self), old(bus)@, op, addr, cycles),
            r == cycles,
            final(bus)@.wf(),
            final(bus)@.ppu.same_beam(old(bus)@.ppu),
            final(self).cycles == old(self).cycles,
    {
        proof {
            reveal(access_op);
        }
        match op {
            Op::Load(r) => {
                let v = bus.read(addr);
                self.set_reg(r, v);
                self.update_nz(v);
            },
            Op::Store(r) => {
                let v = self.get_reg(r);
                bus.write(addr, v);
            },
            Op::Lax => {
                let v = bus.read(addr);
                self.a = v;
                self.x = v;
                self.update_nz(v);
            },
            Op::Sax => {
                bus.write(addr, self.a & self.x);
            },
            Op::And => {
                self.a = self.a & bus.read(addr);
                self.update_nz(self.a);
            },
            Op::Ora => {
                self.a = self.a | bus.read(addr);
                self.update_nz(self.a);
            },
            Op::Eor => {
                self.a = self.a ^ bus.read(addr);
                self.update_nz(self.a);
            },
            Op::Adc => {
                let v = bus.read(addr);
                self.adc(v);
            },
            Op::Sbc => {
                let v = bus.read(addr);
                self.sbc(v);
            },
            Op::Compare(r) => {
                let v = bus.read(addr);
                let reg = self.get_reg(r);
                self.compare(reg, v);
            },
            _ => {
                let v = bus.read(addr);
                self.set_flag(FLAG_Z, self.a & v == 0);
                self.set_flag(FLAG_N, v & 0x80 != 0);
                self.set_flag(FLAG_V, v & 0x40 != 0);
            },
        }
        cycles
    }

    /// Read-modify-write operations on memory.
    fn apply_modify(&mut self, op: Op, addr: u16, cycles: u8, bus: &mut Bus) -> (r: u8)
        requires
            old(bus)@.wf(),
            op is Inc || op is Dec || op is ShiftMem || op is Dcp || op is Isc || op is Rla || op is Slo
                || op is Sre || op is Rra,
        ensures
            (*final(self), final(bus)@, r) === modify_op(*old(self), old(bus)@, op, addr, cycles),
            r == cycles,
            final(bus)@.wf(),
            final(bus)@.ppu.same_beam(old(bus)@.ppu),
            final(self).cycles == old(self).cycles,
    {
        match op {
            Op::Inc => self.inc_mem(addr, cycles, bus),
            Op::Dec => self.dec_mem(addr, cycles, bus),
            Op::ShiftMem(kind) => self.shift_mem(kind, addr, cycles, bus),
            Op::Dcp => self.dcp(addr, cycles, bus),
            Op::Isc => self.isc(addr, cycles, bus),
            Op::Rla => self.rla(addr, cycles, bus),
            Op::Slo => self.slo(addr, cycles, bus),
            Op::Sre => self.sre(addr, cycles, bus),
            _ => self.rra(addr, cycles, bus),
        }
    }

    /// Shift or rotate of the accumulator, the bit shifted out going to C.
    fn shift_acc(&mut self, k: Shift)
        ensures
            ({
                let (r, carry) = shift_of(k, old(self).a, flag(old(self).status, FLAG_C));
                *final(self) == (Cpu { a: r, status: with_flag(old(self).status, FLAG_C, carry), ..*old(self) }).with_nz(r)
            }),
    {
        let v = self.a;
        let c: u8 = if self.get_flag(FLAG_C) { 1 } else { 0 };
        proof {
            assert((v & 0x80 != 0) == (v >= 0x80)) by { lemma_byte_bits(); }
            assert((v & 0x01 != 0) == (v % 2 == 1)) by { lemma_byte_bits(); }
            assert(v << 1u8 == (v * 2) % 256) by { lemma_byte_shl(); }
            assert(v >> 1u8 == v / 2) by { lemma_byte_bits(); }
            assert((v << 1u8) | c == (v * 2 + c) % 256) by { lemma_byte_rol(); }
            assert((v >> 1u8) | (c << 7u8) == v / 2 + c * 128) by { lemma_byte_bits(); }
        }
        let (result, carry) = match k {
            Shift::Asl => (v << 1, v & 0x80 != 0),
            Shift::Lsr => (v >> 1, v & 0x01 != 0),
            Shift::Rol => ((v << 1) | c, v & 0x80 != 0),
            Shift::Ror => ((v >> 1) | (c << 7), v & 0x01 != 0),
        };
        self.a = result;
        self.set_flag(FLAG_C, carry);
        self.update_nz(self.a);
    }

    /// Operations on registers and flags alone.
    #[verifier::rlimit(30)]
    fn apply_register(&mut self, op: Op, cycles: u8) -> (r: u8)
        requires
            op is Tax || op is Tay || op is Txa || op is Tya || op is Tsx || op is Txs || op is IncReg
                || op is DecReg || op is ShiftAcc || op is SetFlag || op is Nop,
        ensures
            forall|b: BusView, addr: u16|
                (#[trigger] register_op(*old(self), b, op, addr, cycles)) == (*final(self), b, r),
            r == cycles,
            final(self).cycles == old(self).cycles,
    {
        proof {
            reveal(register_op);
        }
        match op {
            Op::Tax => {
                self.x = self.a;
                self.update_nz(self.x);
            },
            Op::Tay => {
                self.y = self.a;
                self.update_nz(self.y);
            },
            Op::Txa => {
                self.a = self.x;
                self.update_nz(self.a);
            },
            Op::Tya => {
                self.a = self.y;
                self.update_nz(self.a);
            },
            Op::Tsx => {
                self.x = self.sp;
                self.update_nz(self.x);
            },
            Op::Txs => {
                self.sp = self.x;
            },
            Op::IncReg(r) => {
                let v = self.get_reg(r).wrapping_add(1);
                self.set_reg(r, v);
                self.update_nz(v);
            },
            Op::DecReg(r) => {
                let v = self.get_reg(r).wrapping_sub(1);
                self.set_reg(r, v);
                self.update_nz(v);
            },
            Op::ShiftAcc(k) => {
                self.shift_acc(k);
            },
            Op::SetFlag(f, on) => {
                self.set_flag(f, on);
            },
            _ => {},
        }
        cycles
    }

    /// Stack operations, jumps, branches, BRK and RTI.
    fn apply_flow(&mut self, op: Op, addr: u16, cycles: u8, bus: &mut Bus) -> (r: u8)
        requires
            old(bus)@.wf(),
            op is Pha || op is Pla || op is Php || op is Plp || op is Jmp || op is Jsr || op is Rts
                || op is Branch || op is Brk || op is Rti,
        ensures
            (*final(self), final(bus)@, r) === flow_op(*old(self), old(bus)@, op, addr, cycles),
            r == cycles || 2 <= r <= 4,
            final(bus)@.wf(),
            final(bus)@.ppu.same_beam(old(bus)@.ppu),
            final(self).cycles == old(self).cycles,
    {
        match op {
            Op::Pha => self.pha(addr, cycles, bus),
            Op::Pla => self.pla(addr, cycles, bus),
            Op::Php => self.php(addr, cycles, bus),
            Op::Plp => self.plp(addr, cycles, bus),
            Op::Jmp => {
                proof {
                    reveal(flow_op);
                }
                self.pc = addr;
                cycles
            },
            Op::Jsr => self.jsr(addr, cycles, bus),
            Op::Rts => self.rts(addr, cycles, bus),
            Op::Branch(f, want) => {
                proof {
                    reveal(flow_op);
                }
                let cond = self.get_flag(f) == want;
                self.branch(cond, addr)
            },
            Op::Brk => self.brk(addr, cycles, bus),
            _ => self.rti(addr, cycles, bus),
        }
    }

    /// INC: increment memory.
    #[verifier::spinoff_prover]
    fn inc_mem(&mut self, addr: u16, cycles: u8, bus: &mut Bus) -> (r: u8)
        requires
            old(bus)@.wf(),
        ensures
            (*final(self), final(bus)@, r) === modify_op(*old(self), old(bus)@, Op::Inc, addr, cycles),
            r == cycles,
            final(bus)@.wf(),
            final(bus)@.ppu.same_beam(old(bus)@.ppu),
            final(self).cycles == old(self).cycles,
    {
        proof {
            reveal(modify_op);
        }
        let v = bus.read(addr).wrapping_add(1);
        bus.write(addr, v);
        self.update_nz(v);
        cycles
    }

    /// DEC: decrement memory.
    #[verifier::spinoff_prover]
    fn dec_mem(&mut self, addr: u16, cycles: u8, bus: &mut Bus) -> (r: u8)
        requires
            old(bus)@.wf(),
        ensures
            (*final(self), final(bus)@, r) === modify_op(*old(self), old(bus)@, Op::Dec, addr, cycles),
            r == cycles,
            final(bus)@.wf(),
            final(bus)@.ppu.same_beam(old(bus)@.ppu),
            final(self).cycles == old(self).cycles,
    {
        proof {
            reveal(modify_op);
        }
        let v = bus.read(addr).wrapping_sub(1);
        bus.write(addr, v);
        self.update_nz(v);
        cycles
    }

    /// ASL/LSR/ROL/ROR on memory.
    #[verifier::spinoff_prover]
    fn shift_mem(&mut self, kind: Shift, addr: u16, cycles: u8, bus: &mut Bus) -> (r: u8)
        requires
            old(bus)@.wf(),
        ensures
            (*final(self), final(bus)@, r) === modify_op(*old(self), old(bus)@, Op::ShiftMem(kind), addr, cycles),
            r == cycles,
            final(bus)@.wf(),
            final(bus)@.ppu.same_beam(old(bus)@.ppu),
            final(self).cycles == old(self).cycles,
    {
        proof {
            reveal(modify_op);
        }
        let v = match kind {
            Shift::Asl => self.asl_mem(bus, addr),
            Shift::Lsr => self.lsr_mem(bus, addr),
            Shift::Rol => self.rol_mem(bus, addr),
            Shift::Ror => self.ror_mem(bus, addr),
        };
        self.update_nz(v);
        cycles
    }

    /// DCP: decrement memory, then compare with A.
    #[verifier::spinoff_prover]
    #[verifier::rlimit(30)]
    fn dcp(&mut self, addr: u16, cycles: u8, bus: &mut Bus) -> (r: u8)
        requires
            old(bus)@.wf(),
        ensures
            (*final(self), final(bus)@, r) === modify_op(*old(self), old(bus)@, Op::Dcp, addr, cycles),
            r == cycles,
            final(bus)@.wf(),
            final(bus)@.ppu.same_beam(old(bus)@.ppu),
            final(self).cycles == old(self).cycles,
    {
        proof {
            reveal(modify_op);
        }
        let v = bus.read(addr).wrapping_sub(1);
        bus.write(addr, v);
        self.compare(self.a, v);
        cycles
    }

    /// ISC: increment memory, then subtract it from A.
    #[verifier::spinoff_prover]
    fn isc(&mut self, addr: u16, cycles: u8, bus: &mut Bus) -> (r: u8)
        requires
            old(bus)@.wf(),
        ensures
            (*final(self), final(bus)@, r) === modify_op(*old(self), old(bus)@, Op::Isc, addr, cycles),
            r == cycles,
            final(bus)@.wf(),
            final(bus)@.ppu.same_beam(old(bus)@.ppu),
            final(self).cycles == old(self).cycles,
    {
        proof {
            reveal(modify_op);
        }
        let v = bus.read(addr).wrapping_add(1);
        bus.write(addr, v);
        self.sbc(v);
        cycles
    }

    /// RLA: rotate memory left, then AND into A.
    #[verifier::spinoff_prover]
    fn rla(&mut self, addr: u16, cycles: u8, bus: &mut Bus) -> (r: u8)
        requires
            old(bus)@.wf(),
        ensures
            (*final(self), final(bus)@, r) === modify_op(*old(self), old(bus)@, Op::Rla, addr, cycles),
            r == cycles,
            final(bus)@.wf(),
            final(bus)@.ppu.same_beam(old(bus)@.ppu),
            final(self).cycles == old(self).cycles,
    {
        proof {
            reveal(modify_op);
        }
        let v = self.rol_mem(bus, addr);
        self.a = self.a & v;
        self.update_nz(self.a);
        cycles
    }

    /// SLO: shift memory left, then OR into A.
    #[verifier::spinoff_prover]
    fn slo(&mut self, addr: u16, cycles: u8, bus: &mut Bus) -> (r: u8)
        requires
            old(bus)@.wf(),
        ensures
            (*final(self), final(bus)@, r) === modify_op(*old(self), old(bus)@, Op::Slo, addr, cycles),
            r == cycles,
            final(bus)@.wf(),
            final(bus)@.ppu.same_beam(old(bus)@.ppu),
            final(self).cycles == old(self).cycles,
    {
        proof {
            reveal(modify_op);
        }
        let v = self.asl_mem(bus, addr);
        self.a = self.a | v;
        self.update_nz(self.a);
        cycles
    }

    /// SRE: shift memory right, then EOR into A.
    #[verifier::spinoff_prover]
    fn sre(&mut self, addr: u16, cycles: u8, bus: &mut Bus) -> (r: u8)
        requires
            old(bus)@.wf(),
        ensures
            (*final(self), final(bus)@, r) === modify_op(*old(self), old(bus)@, Op::Sre, addr, cycles),
            r == cycles,
            final(bus)@.wf(),
            final(bus)@.ppu.same_beam(old(bus)@.ppu),
            final(self).cycles == old(self).cycles,
    {
        proof {
            reveal(modify_op);
        }
        let v = self.lsr_mem(bus, addr);
        self.a = self.a ^ v;
        self.update_nz(self.a);
        cycles
    }

    /// RRA: rotate memory right, then add it to A (the rotated-out bit is the carry in).
    #[verifier::spinoff_prover]
    fn rra(&mut self, addr: u16, cycles: u8, bus: &mut Bus) -> (r: u8)
        requires
            old(bus)@.wf(),
        ensures
            (*final(self), final(bus)@, r) === modify_op(*old(self), old(bus)@, Op::Rra, addr, cycles),
            r == cycles,
            final(bus)@.wf(),
            final(bus)@.ppu.same_beam(old(bus)@.ppu),
            final(self).cycles == old(self).cycles,
    {
        proof {
            reveal(modify_op);
        }
        let v = self.ror_mem(bus, addr);
        self.adc(v);
        cycles
    }

    /// PHA: push A.
    #[verifier::spinoff_prover]
    fn pha(&mut self, addr: u16, cycles: u8, bus: &mut Bus) -> (r: u8)
        requires
            old(bus)@.wf(),
        ensures
            (*final(self), final(bus)@, r) === flow_op(*old(self), old(bus)@, Op::Pha, addr, cycles),
            r == cycles,
            final(bus)@.wf(),
            final(bus)@.ppu.same_beam(old(bus)@.ppu),
            final(self).cycles == old(self).cycles,
    {
        proof {
            reveal(flow_op);
        }
        let v = self.a;
        self.push(bus, v);
        cycles
    }

    /// PLA: pull A.
    #[verifier::spinoff_prover]
    fn pla(&mut self, addr: u16, cycles: u8, bus: &mut Bus) -> (r: u8)
        requires
            old(bus)@.wf(),
        ensures
            (*final(self), final(bus)@, r) === flow_op(*old(self), old(bus)@, Op::Pla, addr, cycles),
            r == cycles,
            final(bus)@.wf(),
            final(bus)@.ppu.same_beam(old(bus)@.ppu),
            final(self).cycles == old(self).cycles,
    {
        proof {
            reveal(flow_op);
        }
        let v = self.pop(bus);
        self.a = v;
        self.update_nz(self.a);
        cycles
    }

    /// PHP: push the status with B and U set.
    #[verifier::spinoff_prover]
    fn php(&mut self, addr: u16, cycles: u8, bus: &mut Bus) -> (r: u8)
        requires
            old(bus)@.wf(),
        ensures
            (*final(self), final(bus)@, r) === flow_op(*old(self), old(bus)@, Op::Php, addr, cycles),
            r == cycles,
            final(bus)@.wf(),
            final(bus)@.ppu.same_beam(old(bus)@.ppu),
            final(self).cycles == old(self).cycles,
    {
        proof {
            reveal(flow_op);
        }
        let s = self.status | FLAG_B | FLAG_U;
        self.push(bus, s);
        cycles
    }

    /// PLP: pull the status (U forced on, B off).
    #[verifier::spinoff_prover]
    fn plp(&mut self, addr: u16, cycles: u8, bus: &mut Bus) -> (r: u8)
        requires
            old(bus)@.wf(),
        ensures
            (*final(self), final(bus)@, r) === flow_op(*old(self), old(bus)@, Op::Plp, addr, cycles),
            r == cycles,
            final(bus)@.wf(),
            final(bus)@.ppu.same_beam(old(bus)@.ppu),
            final(self).cycles == old(self).cycles,
    {
        proof {
            reveal(flow_op);
        }
        let s = self.pop(bus);
        self.status = (s | FLAG_U) & !FLAG_B;
        cycles
    }

    /// JSR: push the address of the last byte of the instruction, then jump.
    #[verifier::spinoff_prover]
    fn jsr(&mut self, addr: u16, cycles: u8, bus: &mut Bus) -> (r: u8)
        requires
            old(bus)@.wf(),
        ensures
            (*final(self), final(bus)@, r) === flow_op(*old(self), old(bus)@, Op::Jsr, addr, cycles),
            r == cycles,
            final(bus)@.wf(),
            final(bus)@.ppu.same_beam(old(bus)@.ppu),
            final(self).cycles == old(self).cycles,
    {
        proof {
            reveal(flow_op);
        }
        let ret = self.pc.wrapping_sub(1);
        self.push_word(bus, ret);
        self.pc = addr;
        cycles
    }

    /// RTS: pull the return address and continue after it.
    #[verifier::spinoff_prover]
    fn rts(&mut self, addr: u16, cycles: u8, bus: &mut Bus) -> (r: u8)
        requires
            old(bus)@.wf(),
        ensures
            (*final(self), final(bus)@, r) === flow_op(*old(self), old(bus)@, Op::Rts, addr, cycles),
            r == cycles,
            final(bus)@.wf(),
            final(bus)@.ppu.same_beam(old(bus)@.ppu),
            final(self).cycles == old(self).cycles,
    {
        proof {
            reveal(flow_op);
        }
        let ret = self.pop_word(bus);
        self.pc = ret.wrapping_add(1);
        cycles
    }

    /// BRK: push PC+1 and the status with B set, set I, jump through $FFFE.
    #[verifier::spinoff_prover]
    fn brk(&mut self, addr: u16, cycles: u8, bus: &mut Bus) -> (r: u8)
        requires
            old(bus)@.wf(),
        ensures
            (*final(self), final(bus)@, r) === flow_op(*old(self), old(bus)@, Op::Brk, addr, cycles),
            r == cycles,
            final(bus)@.wf(),
            final(bus)@.ppu.same_beam(old(bus)@.ppu),
            final(self).cycles == old(self).cycles,
    {
        proof {
            reveal(flow_op);
        }
        self.pc = self.pc.wrapping_add(1);
        let pc = self.pc;
        let status = self.status | FLAG_B | FLAG_U;
        self.push_word(bus, pc);
        self.push(bus, status);
        self.set_flag(FLAG_I, true);
        let lo = bus.read(0xFFFE) as u16;
        let hi = bus.read(0xFFFF) as u16;
        proof {
            lemma_word(lo, hi);
        }
        self.pc = (hi << 8) | lo;
        cycles
    }

    /// RTI: pull the status, then PC.
    #[verifier::spinoff_prover]
    fn rti(&mut self, addr: u16, cycles: u8, bus: &mut Bus) -> (r: u8)
        requires
            old(bus)@.wf(),
        ensures
            (*final(self), final(bus)@, r) === flow_op(*old(self), old(bus)@, Op::Rti, addr, cycles),
            r == cycles,
            final(bus)@.wf(),
            final(bus)@.ppu.same_beam(old(bus)@.ppu),
            final(self).cycles == old(self).cycles,
    {
        proof {
            reveal(flow_op);
        }
        let s = self.pop(bus);
        self.status = (s | FLAG_U) & !FLAG_B;
        let pc = self.pop_word(bus);
        self.pc = pc;
        cycles
    }
}

} // verus!

verus! {

// ---------------------------------------------------------------------------
// Laws
// ---------------------------------------------------------------------------

/// The stack lives in page one of RAM: slot `sp` is RAM byte $100 + sp.
pub proof fn lemma_stack_in_ram(sp: u8)
    ensures
        stack_addr(sp) <= 0x1FFF,
        crate::bus::ram_index(stack_addr(sp)) == 0x100 + sp,
{
    let a = stack_addr(sp);
    assert(a == 0x100 + sp);
    assert(a & 0x07FF == a) by { lemma_word_bits(); }
}

/// A pull returns what the last push stored and restores the stack pointer;
/// the CPU is otherwise unchanged.
pub proof fn lemma_push_then_pop(c: Cpu, b: BusView, v: u8)
    requires
        b.ram.len() == 2048,
    ensures
        ({
            let (c1, b1) = push_byte(c, b, v);
            let (c2, b2, r) = pop_byte(c1, b1);
            &&& r == v
            &&& c2 == c
            &&& b2 == b1
        }),
{
    reveal(push_byte);
    reveal(pop_byte);
    reveal(bus_read);
    reveal(bus_write);
    lemma_stack_in_ram(c.sp);
}

/// Pulling a word returns the last word pushed and restores the stack pointer.
pub proof fn lemma_push_word_then_pop_word(c: Cpu, b: BusView, v: u16)
    requires
        b.ram.len() == 2048,
    ensures
        ({
            let (c1, b1) = push_word_of(c, b, v);
            let (c2, b2, r) = pop_word_of(c1, b1);
            &&& r == v
            &&& c2 == c
            &&& b2 == b1
        }),
{
    reveal(push_word_of);
    reveal(pop_word_of);
    let hi = (v / 256) as u8;
    let lo = (v % 256) as u8;
    let (c1, b1) = push_byte(c, b, hi);
    let (c2, b2) = push_byte(c1, b1, lo);
    assert(b1.ram.len() == 2048) by {
        reveal(push_byte);
        reveal(bus_write);
        lemma_stack_in_ram(c.sp);
    }
    lemma_push_then_pop(c1, b1, lo);
    assert(pop_byte(c1, b2) == (c, b2, hi)) by {
        reveal(push_byte);
        reveal(pop_byte);
        reveal(bus_read);
        reveal(bus_write);
        lemma_stack_in_ram(c.sp);
        lemma_stack_in_ram(c1.sp);
        assert(wrap8(c1.sp + 1) == c.sp);
        assert(c1.sp != c.sp);
    }
    assert(word(lo, hi) == v);
}

/// RTS returns to the instruction after the JSR: JSR (6 cycles) pushes the
/// address of its last byte, high byte first, and jumps; RTS (6 cycles) pulls it
/// and resumes one past it, with the stack pointer restored and A, X, Y, the
/// status and the cycle count untouched by the pair.
#[verifier::rlimit(30)]
pub proof fn lemma_jsr_then_rts(c: Cpu, b: BusView, target: u16, any: u16)
    requires
        b.ram.len() == 2048,
    ensures
        ({
            let (c1, b1, n1) = run_op(c, b, Op::Jsr, target, 6);
            let (c2, b2, n2) = run_op(c1, b1, Op::Rts, any, 6);
            let ret = wrap16(c.pc - 1);
            &&& n1 == 6 && n2 == 6
            &&& c1.pc == target
            &&& c1.sp == wrap8(c.sp - 2)
            &&& b1.ram[0x100 + c.sp] == ret / 256
            &&& b1.ram[0x100 + wrap8(c.sp - 1)] == ret % 256
            &&& c2 == (Cpu { pc: c.pc, ..c })
        }),
{
    reveal(run_op);
    reveal(flow_op);
    let ret = wrap16(c.pc - 1);
    lemma_push_word_then_pop_word(c, b, ret);
    lemma_push_word_bytes(c, b, ret);
    let (c1, b1) = push_word_of(c, b, ret);
    lemma_pop_word_ignores_pc(c1, b1, target);
}

/// Pushing a word moves the stack pointer down two and stores the high byte at
/// the old top, the low byte below it.
proof fn lemma_push_word_bytes(c: Cpu, b: BusView, v: u16)
    requires
        b.ram.len() == 2048,
    ensures
        push_word_of(c, b, v).0 == (Cpu { sp: wrap8(c.sp - 2), ..c }),
        push_word_of(c, b, v).1.ram[0x100 + c.sp] == v / 256,
        push_word_of(c, b, v).1.ram[0x100 + wrap8(c.sp - 1)] == v % 256,
        push_word_of(c, b, v).1.ram.len() == 2048,
{
    reveal(push_word_of);
    reveal(push_byte);
    reveal(bus_write);
    lemma_stack_in_ram(c.sp);
    lemma_stack_in_ram(wrap8(c.sp - 1));
    assert(wrap8(wrap8(c.sp - 1) - 1) == wrap8(c.sp - 2));
}

/// Pulling a word does not read or change PC.
proof fn lemma_pop_word_ignores_pc(c: Cpu, b: BusView, pc: u16)
    ensures
        pop_word_of(Cpu { pc: pc, ..c }, b).2 == pop_word_of(c, b).2,
        pop_word_of(Cpu { pc: pc, ..c }, b).1 == pop_word_of(c, b).1,
        pop_word_of(Cpu { pc: pc, ..c }, b).0 == (Cpu { pc: pc, ..pop_word_of(c, b).0 }),
{
    reveal(pop_word_of);
    reveal(pop_byte);
}

/// PHP then PLP: PHP (3 cycles) pushes the status with B and U set; PLP (4
/// cycles) pulls it back with U set and B clear, restoring the stack pointer and
/// leaving A, X, Y, PC and the cycle count alone.
pub proof fn lemma_php_then_plp(c: Cpu, b: BusView, a1: u16, a2: u16)
    requires
        b.ram.len() == 2048,
    ensures
        ({
            let (c1, b1, n1) = run_op(c, b, Op::Php, a1, 3);
            let (c2, b2, n2) = run_op(c1, b1, Op::Plp, a2, 4);
            &&& n1 == 3 && n2 == 4
            &&& c1 == (Cpu { sp: wrap8(c.sp - 1), ..c })
            &&& b1.ram[0x100 + c.sp] == c.status | 0x30
            &&& c2 == (Cpu { status: (c.status | 0x20) & !0x10u8, ..c })
        }),
{
    reveal(run_op);
    reveal(flow_op);
    let s0 = c.status;
    let st = s0 | FLAG_B | FLAG_U;
    lemma_push_then_pop(c, b, st);
    assert(st == s0 | 0x30) by (bit_vector)
        requires
            st == s0 | 0x10 | 0x20,
    ;
    assert(push_byte(c, b, st).1.ram[0x100 + c.sp] == st) by {
        reveal(push_byte);
        reveal(bus_write);
        lemma_stack_in_ram(c.sp);
    }
    assert(pulled_status(st) == (s0 | 0x20) & !0x10u8) by (bit_vector)
        requires
            st == s0 | 0x30,
    ;
    assert(push_byte(c, b, st).0 == (Cpu { sp: wrap8(c.sp - 1), ..c })) by {
        reveal(push_byte);
    }
}

/// SBC subtracts with borrow: A - M - (1 - C), C set when no borrow occurred,
/// V on signed overflow of the subtraction.
pub proof fn lemma_sbc_subtracts(c: Cpu, v: u8)
    ensures
        ({
            let r = sbc_of(c, v);
            let diff = c.a as int - v as int - (1 - c.carry());
            let sdiff = signed(c.a) - signed(v) - (1 - c.carry());
            &&& r.a == wrap8(diff)
            &&& flag(r.status, FLAG_C) == (diff >= 0)
            &&& flag(r.status, FLAG_V) == (sdiff < -128 || sdiff > 127)
        }),
{
    let nv = v ^ 0xFF;
    assert(v ^ 0xFF == 255 - v) by { lemma_byte_bits(); }
    assert(signed(nv) == -signed(v) - 1);
    let s = c.status;
    let sum = c.a as int + nv as int + c.carry();
    let result = wrap8(sum);
    let s1 = with_flag(s, FLAG_C, sum > 255);
    let ssum = signed(c.a) + signed(nv) + c.carry();
    let s2 = with_flag(s1, FLAG_V, ssum < -128 || ssum > 127);
    lemma_flags_of_nz(s2, result);
    lemma_with_flag(s1, FLAG_V, ssum < -128 || ssum > 127);
    lemma_with_flag(s, FLAG_C, sum > 255);
    assert(wrap8(sum) == wrap8(c.a as int - v as int - (1 - c.carry())));
}

/// Setting or clearing one status bit reads back as set or clear, and leaves the
/// other seven bits alone.
pub proof fn lemma_with_flag(s: u8, f: u8, on: bool)
    requires
        f == FLAG_C || f == FLAG_Z || f == FLAG_I || f == FLAG_D || f == FLAG_B || f == FLAG_U
            || f == FLAG_V || f == FLAG_N,
    ensures
        flag(with_flag(s, f, on), f) == on,
        forall|g: u8|
            (g == FLAG_C || g == FLAG_Z || g == FLAG_I || g == FLAG_D || g == FLAG_B || g == FLAG_U
                || g == FLAG_V || g == FLAG_N) && g != f ==> flag(with_flag(s, f, on), g) == flag(s, g),
        with_flag(s, f, on) & 0x30 == if f == FLAG_B || f == FLAG_U {
            with_flag(s & 0x30, f, on)
        } else {
            s & 0x30
        },
{
    assert(((s | f) & f != 0) && ((s & !f) & f == 0)) by (bit_vector)
        requires
            f == 1 || f == 2 || f == 4 || f == 8 || f == 16 || f == 32 || f == 64 || f == 128,
    ;
    assert forall|g: u8|
        (g == FLAG_C || g == FLAG_Z || g == FLAG_I || g == FLAG_D || g == FLAG_B || g == FLAG_U
            || g == FLAG_V || g == FLAG_N) && g != f implies flag(with_flag(s, f, on), g) == flag(
        s,
        g,
    ) by {
        assert(((s | f) & g != 0) == (s & g != 0) && ((s & !f) & g != 0) == (s & g != 0))
            by (bit_vector)
            requires
                f == 1 || f == 2 || f == 4 || f == 8 || f == 16 || f == 32 || f == 64 || f == 128,
                g == 1 || g == 2 || g == 4 || g == 8 || g == 16 || g == 32 || g == 64 || g == 128,
                g != f,
        ;
    }
    if f == FLAG_B || f == FLAG_U {
        assert(((s | f) & 0x30) == (s & 0x30) | f && ((s & !f) & 0x30) == (s & 0x30) & !f)
            by (bit_vector)
            requires
                f == 16 || f == 32,
        ;
    } else {
        assert(((s | f) & 0x30) == s & 0x30 && ((s & !f) & 0x30) == s & 0x30) by (bit_vector)
            requires
                f == 1 || f == 2 || f == 4 || f == 8 || f == 64 || f == 128,
        ;
    }
}

/// Z and N describe the value; the other flags are untouched.
pub proof fn lemma_flags_of_nz(s: u8, v: u8)
    ensures
        flag(nz(s, v), FLAG_Z) == (v == 0),
        flag(nz(s, v), FLAG_N) == (v >= 0x80),
        flag(nz(s, v), FLAG_C) == flag(s, FLAG_C),
        flag(nz(s, v), FLAG_V) == flag(s, FLAG_V),
        flag(nz(s, v), FLAG_I) == flag(s, FLAG_I),
        flag(nz(s, v), FLAG_D) == flag(s, FLAG_D),
        nz(s, v) & 0x30 == s & 0x30,
{
    lemma_with_flag(s, FLAG_Z, v == 0);
    lemma_with_flag(with_flag(s, FLAG_Z, v == 0), FLAG_N, v >= 0x80);
}


/// Flags that instructions set or clear directly never include B or U.
proof fn lemma_decoded_flags(opcode: u8)
    ensures
        decode(opcode).op matches Op::SetFlag(f, _) ==> (f == FLAG_C || f == FLAG_I || f == FLAG_D
            || f == FLAG_V),
{
    reveal(decode);
}

proof fn lemma_status_bits_of_flags(s: u8, v: u8, f: u8, on: bool)
    requires
        f == FLAG_C || f == FLAG_Z || f == FLAG_I || f == FLAG_D || f == FLAG_V || f == FLAG_N,
    ensures
        with_flag(s, f, on) & 0x30 == s & 0x30,
        nz(s, v) & 0x30 == s & 0x30,
{
    lemma_with_flag(s, f, on);
    lemma_flags_of_nz(s, v);
}

proof fn lemma_pulled_status_ok(x: u8)
    ensures
        pulled_status(x) & 0x30 == 0x20,
{
    assert(((x | 0x20u8) & !0x10u8) & 0x30 == 0x20) by (bit_vector);
}

proof fn lemma_stack_keeps_status(c: Cpu, b: BusView, v: u8, w: u16)
    ensures
        push_byte(c, b, v).0.status == c.status,
        pop_byte(c, b).0.status == c.status,
        push_word_of(c, b, w).0.status == c.status,
        pop_word_of(c, b).0.status == c.status,
        fetch_byte(c, b).0.status == c.status,
        fetch_word_of(c, b).0.status == c.status,
{
    reveal(push_byte);
    reveal(pop_byte);
    reveal(push_word_of);
    reveal(pop_word_of);
    reveal(fetch_byte);
    reveal(fetch_word_of);
}

proof fn lemma_operand_keeps_status(c: Cpu, b: BusView, mode: AddrMode)
    ensures
        operand(c, b, mode).0.status == c.status,
{
    reveal(operand);
    reveal(zero_page_operand);
    reveal(absolute_operand);
    reveal(jmp_indirect_operand);
    reveal(indexed_indirect_operand);
    reveal(indirect_indexed_operand);
    lemma_stack_keeps_status(c, b, 0, 0);
}

/// Arithmetic, comparisons and memory shifts leave B and U alone; so do the
/// stack and fetch helpers.
proof fn lemma_alu_keeps_status_bits(c: Cpu, b: BusView, v: u8, addr: u16)
    ensures
        adc_of(c, v).status & 0x30 == c.status & 0x30,
        sbc_of(c, v).status & 0x30 == c.status & 0x30,
        compare_of(c, c.a, v).status & 0x30 == c.status & 0x30,
        compare_of(c, c.x, v).status & 0x30 == c.status & 0x30,
        compare_of(c, c.y, v).status & 0x30 == c.status & 0x30,
        forall|k: Shift| #[trigger] shift_mem_of(c, b, addr, k).0.status & 0x30 == c.status & 0x30,
        push_byte(c, b, 0).0.status == c.status,
        pop_byte(c, b).0.status == c.status,
        push_word_of(c, b, 0).0.status == c.status,
        pop_word_of(c, b).0.status == c.status,
        fetch_byte(c, b).0.status == c.status,
        fetch_word_of(c, b).0.status == c.status,
{
    lemma_stack_keeps_status(c, b, 0, 0);
    reveal(shift_mem_of);
    let s = c.status;
    let sum = c.a as int + v as int + c.carry();
    let s1 = with_flag(s, FLAG_C, sum > 255);
    lemma_status_bits_of_flags(s, v, FLAG_C, sum > 255);
    let ssum = signed(c.a) + signed(v) + c.carry();
    let s2 = with_flag(s1, FLAG_V, ssum < -128 || ssum > 127);
    lemma_status_bits_of_flags(s1, v, FLAG_V, ssum < -128 || ssum > 127);
    lemma_status_bits_of_flags(s2, wrap8(sum), FLAG_V, true);
    let nv = v ^ 0xFF;
    let sum2 = c.a as int + nv as int + c.carry();
    let t1 = with_flag(s, FLAG_C, sum2 > 255);
    lemma_status_bits_of_flags(s, nv, FLAG_C, sum2 > 255);
    let ssum2 = signed(c.a) + signed(nv) + c.carry();
    let t2 = with_flag(t1, FLAG_V, ssum2 < -128 || ssum2 > 127);
    lemma_status_bits_of_flags(t1, nv, FLAG_V, ssum2 < -128 || ssum2 > 127);
    lemma_status_bits_of_flags(t2, wrap8(sum2), FLAG_V, true);
    lemma_status_bits_of_flags(s, v, FLAG_C, c.a >= v);
    lemma_status_bits_of_flags(s, v, FLAG_C, c.x >= v);
    lemma_status_bits_of_flags(s, v, FLAG_C, c.y >= v);
    lemma_status_bits_of_flags(with_flag(s, FLAG_C, c.a >= v), wrap8(c.a - v), FLAG_C, true);
    lemma_status_bits_of_flags(with_flag(s, FLAG_C, c.x >= v), wrap8(c.x - v), FLAG_C, true);
    lemma_status_bits_of_flags(with_flag(s, FLAG_C, c.y >= v), wrap8(c.y - v), FLAG_C, true);
    assert forall|k: Shift| #[trigger] shift_mem_of(c, b, addr, k).0.status & 0x30 == c.status & 0x30 by {
        let (r, carry) = shift_of(k, bus_read(b, addr).1, flag(s, FLAG_C));
        lemma_status_bits_of_flags(s, v, FLAG_C, carry);
    }
}

proof fn lemma_access_keeps_status_ok(c1: Cpu, b1: BusView, op: Op, addr: u16, cycles: u8)
    requires
        c1.status_ok(),
        op matches Op::SetFlag(f, _) ==> (f == FLAG_C || f == FLAG_I || f == FLAG_D || f == FLAG_V),
    ensures
        access_op(c1, b1, op, addr, cycles).0.status_ok(),
{
    reveal(access_op);
    let s = c1.status;
    let v = bus_read(b1, addr).1;
    lemma_alu_keeps_status_bits(c1, b1, v, addr);
    match op {
        Op::Load(r) => lemma_status_bits_of_flags(s, v, FLAG_Z, true),
        Op::Lax => lemma_status_bits_of_flags(s, v, FLAG_Z, true),
        Op::And => lemma_status_bits_of_flags(s, c1.a & v, FLAG_Z, true),
        Op::Ora => lemma_status_bits_of_flags(s, c1.a | v, FLAG_Z, true),
        Op::Eor => lemma_status_bits_of_flags(s, c1.a ^ v, FLAG_Z, true),
        Op::Compare(r) => {},
        Op::Bit => {
            let s1 = with_flag(s, FLAG_Z, c1.a & v == 0);
            let s2 = with_flag(s1, FLAG_N, v & 0x80 != 0);
            lemma_status_bits_of_flags(s, v, FLAG_Z, c1.a & v == 0);
            lemma_status_bits_of_flags(s1, v, FLAG_N, v & 0x80 != 0);
            lemma_status_bits_of_flags(s2, v, FLAG_V, v & 0x40 != 0);
        },
        _ => {},
    }
}

proof fn lemma_modify_keeps_status_ok(c1: Cpu, b1: BusView, op: Op, addr: u16, cycles: u8)
    requires
        c1.status_ok(),
        op matches Op::SetFlag(f, _) ==> (f == FLAG_C || f == FLAG_I || f == FLAG_D || f == FLAG_V),
    ensures
        modify_op(c1, b1, op, addr, cycles).0.status_ok(),
{
    reveal(modify_op);
    let s = c1.status;
    let v = bus_read(b1, addr).1;
    lemma_alu_keeps_status_bits(c1, b1, v, addr);
    match op {
        Op::Inc => lemma_status_bits_of_flags(s, wrap8(v + 1), FLAG_Z, true),
        Op::Dec => lemma_status_bits_of_flags(s, wrap8(v - 1), FLAG_Z, true),
        Op::Dcp => lemma_alu_keeps_status_bits(c1, b1, wrap8(v - 1), addr),
        Op::Isc => lemma_alu_keeps_status_bits(c1, b1, wrap8(v + 1), addr),
        Op::ShiftMem(k) => {
            let (c2, b2, r) = shift_mem_of(c1, b1, addr, k);
            lemma_status_bits_of_flags(c2.status, r, FLAG_Z, true);
        },
        Op::Rla => {
            let (c2, b2, r) = shift_mem_of(c1, b1, addr, Shift::Rol);
            lemma_status_bits_of_flags(c2.status, c2.a & r, FLAG_Z, true);
        },
        Op::Slo => {
            let (c2, b2, r) = shift_mem_of(c1, b1, addr, Shift::Asl);
            lemma_status_bits_of_flags(c2.status, c2.a | r, FLAG_Z, true);
        },
        Op::Sre => {
            let (c2, b2, r) = shift_mem_of(c1, b1, addr, Shift::Lsr);
            lemma_status_bits_of_flags(c2.status, c2.a ^ r, FLAG_Z, true);
        },
        Op::Rra => {
            let (c2, b2, r) = shift_mem_of(c1, b1, addr, Shift::Ror);
            lemma_alu_keeps_status_bits(c2, b2, r, addr);
        },
        _ => {},
    }
}

proof fn lemma_register_keeps_status_ok(c1: Cpu, b1: BusView, op: Op, addr: u16, cycles: u8)
    requires
        c1.status_ok(),
        op matches Op::SetFlag(f, _) ==> (f == FLAG_C || f == FLAG_I || f == FLAG_D || f == FLAG_V),
    ensures
        register_op(c1, b1, op, addr, cycles).0.status_ok(),
{
    reveal(register_op);
    let s = c1.status;
    let v = bus_read(b1, addr).1;
    lemma_alu_keeps_status_bits(c1, b1, v, addr);
    match op {
        Op::Tax => lemma_status_bits_of_flags(s, c1.a, FLAG_Z, true),
        Op::Tay => lemma_status_bits_of_flags(s, c1.a, FLAG_Z, true),
        Op::Txa => lemma_status_bits_of_flags(s, c1.x, FLAG_Z, true),
        Op::Tya => lemma_status_bits_of_flags(s, c1.y, FLAG_Z, true),
        Op::Tsx => lemma_status_bits_of_flags(s, c1.sp, FLAG_Z, true),
        Op::IncReg(r) => lemma_status_bits_of_flags(s, wrap8(c1.reg(r) + 1), FLAG_Z, true),
        Op::DecReg(r) => lemma_status_bits_of_flags(s, wrap8(c1.reg(r) - 1), FLAG_Z, true),
        Op::ShiftAcc(k) => {
            let (r, carry) = shift_of(k, c1.a, flag(s, FLAG_C));
            lemma_status_bits_of_flags(s, r, FLAG_C, carry);
            lemma_status_bits_of_flags(with_flag(s, FLAG_C, carry), r, FLAG_C, carry);
        },
        Op::SetFlag(f, on) => lemma_status_bits_of_flags(s, 0, f, on),
        _ => {},
    }
}

proof fn lemma_flow_keeps_status_ok(c1: Cpu, b1: BusView, op: Op, addr: u16, cycles: u8)
    requires
        c1.status_ok(),
        op matches Op::SetFlag(f, _) ==> (f == FLAG_C || f == FLAG_I || f == FLAG_D || f == FLAG_V),
    ensures
        flow_op(c1, b1, op, addr, cycles).0.status_ok(),
{
    reveal(flow_op);
    let s = c1.status;
    let v = bus_read(b1, addr).1;
    lemma_alu_keeps_status_bits(c1, b1, v, addr);
    match op {
        Op::Pha => lemma_stack_keeps_status(c1, b1, c1.a, 0),
        Op::Php => lemma_stack_keeps_status(c1, b1, c1.status | FLAG_B | FLAG_U, 0),
        Op::Pla => {
            let (c2, b2, x) = pop_byte(c1, b1);
            lemma_status_bits_of_flags(s, x, FLAG_Z, true);
        },
        Op::Plp => {
            let (c2, b2, x) = pop_byte(c1, b1);
            lemma_pulled_status_ok(x);
        },
        Op::Jsr => {
            lemma_stack_keeps_status(c1, b1, 0, wrap16(c1.pc - 1));
        },
        Op::Rts => {},
        Op::Brk => {
            let pc = wrap16(c1.pc + 1);
            lemma_stack_keeps_status(Cpu { pc: pc, ..c1 }, b1, 0, pc);
            let (c2, b2) = push_word_of(Cpu { pc: pc, ..c1 }, b1, pc);
            lemma_stack_keeps_status(c2, b2, c1.status | FLAG_B | FLAG_U, 0);
            lemma_status_bits_of_flags(s, 0, FLAG_I, true);
        },
        Op::Rti => {
            let (c2, b2, x) = pop_byte(c1, b1);
            lemma_pulled_status_ok(x);
            lemma_stack_keeps_status(Cpu { status: pulled_status(x), ..c2 }, b2, 0, 0);
        },
        _ => {},
    }
}

/// The status register keeps U set and B clear through every instruction:
/// PHP and BRK set B only in the pushed copy, and PLP/RTI force U on and B off.
pub proof fn lemma_instruction_keeps_status_ok(c: Cpu, b: BusView, opcode: u8)
    requires
        c.status_ok(),
    ensures
        run_instr(c, b, decode(opcode)).0.status_ok(),
{
    reveal(run_instr);
    reveal(run_op);
    let ins = decode(opcode);
    lemma_decoded_flags(opcode);
    lemma_operand_keeps_status(c, b, ins.mode);
    let (c1, b1, addr, crossed) = operand(c, b, ins.mode);
    let cycles = if ins.page_penalty && crossed {
        (ins.cycles + 1) as u8
    } else {
        ins.cycles
    };
    lemma_access_keeps_status_ok(c1, b1, ins.op, addr, cycles);
    lemma_modify_keeps_status_ok(c1, b1, ins.op, addr, cycles);
    lemma_register_keeps_status_ok(c1, b1, ins.op, addr, cycles);
    lemma_flow_keeps_status_ok(c1, b1, ins.op, addr, cycles);
}

/// NMI and RESET leave the status register with U set and B clear.
pub proof fn lemma_interrupts_keep_status_ok(c: Cpu, b: BusView)
    requires
        c.status_ok(),
    ensures
        nmi_of(c, b).0.status_ok(),
        reset_of(c, b).0.status_ok(),
{
    lemma_stack_keeps_status(c, b, 0, c.pc);
    let (c1, b1) = push_word_of(c, b, c.pc);
    lemma_stack_keeps_status(c1, b1, c.status & !0x10u8, 0);
    lemma_status_bits_of_flags(c.status, 0, FLAG_I, true);
    assert(0x24u8 & 0x30 == 0x20) by (bit_vector);
}

/// Every step keeps U set and B clear in the status register.
pub proof fn lemma_step_keeps_status_ok(c: Cpu, b: BusView)
    requires
        c.status_ok(),
    ensures
        step_of(c, b).0.status_ok(),
{
    lemma_stack_keeps_status(c, b, 0, 0);
    let (c1, b1, opcode) = fetch_byte(c, b);
    lemma_instruction_keeps_status_ok(c1, b1, opcode);
}

/// RTI after BRK resumes past BRK's padding byte: BRK (7 cycles) pushes PC + 1
/// and the status with B and U set, sets I and jumps through $FFFE; RTI (6
/// cycles) restores PC + 1, the stack pointer, and the status with U set and B
/// clear.
pub proof fn lemma_brk_then_rti(c: Cpu, b: BusView, a1: u16, any: u16)
    requires
        b.ram.len() == 2048,
    ensures
        ({
            let (c1, b1, n1) = run_op(c, b, Op::Brk, a1, 7);
            let (c2, b2, n2) = run_op(c1, b1, Op::Rti, any, 6);
            &&& n1 == 7 && n2 == 6
            &&& c1.sp == wrap8(c.sp - 3)
            &&& c1.status & 0x04 != 0
            &&& c2.pc == wrap16(c.pc + 1)
            &&& c2.sp == c.sp
            &&& c2.status == (c.status | 0x20) & !0x10u8
            &&& c2.a == c.a && c2.x == c.x && c2.y == c.y && c2.cycles == c.cycles
        }),
{
    let sp = c.sp;
    let v = wrap16(c.pc + 1);
    let st = c.status;
    let pushed = st | FLAG_B | FLAG_U;
    lemma_brk_effect(c, b, a1);
    let (c1, b1, n1) = run_op(c, b, Op::Brk, a1, 7);
    lemma_rti_effect(c1, b1, any);
    assert(wrap8(wrap8(sp - 3) + 1) == wrap8(sp - 2));
    assert(wrap8(wrap8(sp - 3) + 2) == wrap8(sp - 1));
    assert(wrap8(wrap8(sp - 3) + 3) == sp);
    assert(pushed == st | 0x10 | 0x20);
    assert(pulled_status(pushed) == (st | 0x20) & !0x10u8) by (bit_vector)
        requires
            pushed == st | 0x10 | 0x20,
    ;
    let s1 = with_flag(st, FLAG_I, true);
    assert(s1 & 0x04 != 0) by (bit_vector)
        requires
            s1 == st | 0x04,
    ;
    assert(word((v % 256) as u8, (v / 256) as u8) == v);
}

/// BRK: pushes PC + 1 (high byte first) and the status with B and U set, sets I
/// and jumps through $FFFE/$FFFF; 7 cycles.
#[verifier::rlimit(30)]
proof fn lemma_brk_effect(c: Cpu, b: BusView, a1: u16)
    requires
        b.ram.len() == 2048,
    ensures
        ({
            let (c1, b1, n1) = run_op(c, b, Op::Brk, a1, 7);
            let v = wrap16(c.pc + 1);
            &&& n1 == 7
            &&& c1.sp == wrap8(c.sp - 3)
            &&& c1.status == with_flag(c.status, FLAG_I, true)
            &&& c1.a == c.a && c1.x == c.x && c1.y == c.y && c1.cycles == c.cycles
            &&& b1.ram.len() == 2048
            &&& b1.ram[0x100 + c.sp] == v / 256
            &&& b1.ram[0x100 + wrap8(c.sp - 1)] == v % 256
            &&& b1.ram[0x100 + wrap8(c.sp - 2)] == c.status | FLAG_B | FLAG_U
        }),
{
    reveal(run_op);
    reveal(flow_op);
    let sp = c.sp;
    let v = wrap16(c.pc + 1);
    let c0 = Cpu { pc: v, ..c };
    lemma_push_word_bytes(c0, b, v);
    let (c1, b1) = push_word_of(c0, b, v);
    lemma_push_byte_facts(c1, b1, c.status | FLAG_B | FLAG_U);
    let (c2, b2) = push_byte(c1, b1, c.status | FLAG_B | FLAG_U);
    lemma_stack_in_ram(wrap8(sp - 2));
    assert(wrap8(wrap8(sp - 2) - 1) == wrap8(sp - 3));
    lemma_read_rom(b2, 0xFFFE);
    lemma_read_rom(b2, 0xFFFF);
}

/// Pushing a byte stores it in RAM at the top of the stack and moves the stack
/// pointer down one.
proof fn lemma_push_byte_facts(c: Cpu, b: BusView, v: u8)
    requires
        b.ram.len() == 2048,
    ensures
        push_byte(c, b, v).0 == (Cpu { sp: wrap8(c.sp - 1), ..c }),
        push_byte(c, b, v).1.ram == b.ram.update(0x100 + c.sp, v),
        push_byte(c, b, v).1.ram.len() == 2048,
{
    reveal(push_byte);
    reveal(bus_write);
    lemma_stack_in_ram(c.sp);
}

/// Reading cartridge space changes nothing on the bus.
proof fn lemma_read_rom(b: BusView, addr: u16)
    requires
        addr >= 0x8000,
    ensures
        bus_read(b, addr).0 == b,
{
    reveal(bus_read);
}

/// RTI: pulls the status (U set, B clear), then PC, low byte first; 6 cycles.
proof fn lemma_rti_effect(c: Cpu, b: BusView, any: u16)
    requires
        b.ram.len() == 2048,
    ensures
        ({
            let (c2, b2, n2) = run_op(c, b, Op::Rti, any, 6);
            &&& n2 == 6
            &&& c2.sp == wrap8(c.sp + 3)
            &&& c2.status == pulled_status(b.ram[0x100 + wrap8(c.sp + 1)])
            &&& c2.pc == word(b.ram[0x100 + wrap8(c.sp + 2)], b.ram[0x100 + wrap8(c.sp + 3)])
            &&& c2.a == c.a && c2.x == c.x && c2.y == c.y && c2.cycles == c.cycles
        }),
{
    reveal(run_op);
    reveal(flow_op);
    reveal(pop_word_of);
    reveal(pop_byte);
    reveal(bus_read);
    let sp = c.sp;
    lemma_stack_in_ram(wrap8(sp + 1));
    lemma_stack_in_ram(wrap8(sp + 2));
    lemma_stack_in_ram(wrap8(sp + 3));
    assert(wrap8(wrap8(sp + 1) + 1) == wrap8(sp + 2));
    assert(wrap8(wrap8(sp + 2) + 1) == wrap8(sp + 3));
}


/// RTI after NMI resumes the interrupted program: PC, status and stack pointer
/// are back to what they were (the status had U set and B clear).
#[verifier::rlimit(30)]
pub proof fn lemma_nmi_then_rti(c: Cpu, b: BusView, any: u16)
    requires
        b.ram.len() == 2048,
        c.status_ok(),
    ensures
        ({
            let (c1, b1) = nmi_of(c, b);
            let (c2, b2, _) = run_op(c1, b1, Op::Rti, any, 6);
            &&& c2.pc == c.pc
            &&& c2.status == c.status
            &&& c2.sp == c.sp
        }),
{
    reveal(run_op);
    reveal(flow_op);
    reveal(push_word_of);
    reveal(pop_word_of);
    reveal(push_byte);
    reveal(pop_byte);
    reveal(bus_read);
    reveal(bus_write);
    let sp = c.sp;
    lemma_stack_in_ram(sp);
    lemma_stack_in_ram(wrap8(sp - 1));
    lemma_stack_in_ram(wrap8(sp - 2));
    assert(wrap8(wrap8(sp - 1) - 1) == wrap8(sp - 2));
    assert(wrap8(wrap8(sp - 2) - 1) == wrap8(sp - 3));
    assert(wrap8(wrap8(sp - 3) + 1) == wrap8(sp - 2));
    assert(wrap8(wrap8(sp - 2) + 1) == wrap8(sp - 1));
    assert(wrap8(wrap8(sp - 1) + 1) == sp);
    let st = c.status;
    assert((((st & !0x10u8) | 0x20u8) & !0x10u8) == st) by (bit_vector)
        requires
            st & 0x30 == 0x20,
    ;
    let v = c.pc;
    assert(word((v % 256) as u8, (v / 256) as u8) == v);
}

/// NMI leaves A, X and Y alone, pushes the return address (high byte first) and
/// the status with B clear onto the stack page, moves SP down three, sets I,
/// jumps to the word at $FFFA/$FFFB (low byte first) and takes 7 cycles.
#[verifier::rlimit(30)]
pub proof fn lemma_nmi_entry(c: Cpu, b: BusView)
    requires
        b.ram.len() == 2048,
    ensures
        ({
            let (r, b1) = nmi_of(c, b);
            let lo = bus_read(b, 0xFFFA).1;
            let hi = bus_read(bus_read(b, 0xFFFA).0, 0xFFFB).1;
            let pushed = b1.ram[0x100 + wrap8(c.sp - 2)];
            &&& r.a == c.a && r.x == c.x && r.y == c.y
            &&& r.sp == wrap8(c.sp - 3)
            &&& r.status == c.status | FLAG_I
            &&& r.pc as int == hi as int * 256 + lo as int
            &&& r.cycles == c.cycles + 7 || c.cycles + 7 > u64::MAX
            &&& b1.ram[0x100 + c.sp] == c.pc / 256
            &&& b1.ram[0x100 + wrap8(c.sp - 1)] == c.pc % 256
            &&& pushed & 0x10 == 0
            &&& pushed | 0x10 == c.status | 0x10
        }),
{
    reveal(push_word_of);
    reveal(push_byte);
    reveal(bus_read);
    reveal(bus_write);
    let sp = c.sp;
    lemma_stack_in_ram(sp);
    lemma_stack_in_ram(wrap8(sp - 1));
    lemma_stack_in_ram(wrap8(sp - 2));
    assert(wrap8(wrap8(sp - 1) - 1) == wrap8(sp - 2));
    assert(wrap8(wrap8(sp - 2) - 1) == wrap8(sp - 3));
    let st = c.status;
    assert((st & !0x10u8) & 0x10 == 0 && (st & !0x10u8) | 0x10 == st | 0x10) by (bit_vector);
}

/// RESET forgets whatever the registers held: A, X and Y become 0, SP $FD, the
/// status $24 and PC the word at $FFFC/$FFFD (low byte first); only the cycle
/// count carries over, 8 higher. So two CPUs that differ only in their registers
/// come out of a reset identical but for the cycle count.
pub proof fn lemma_reset_forgets_registers(c: Cpu, d: Cpu, b: BusView)
    ensures
        ({
            let (r, b2) = reset_of(c, b);
            let lo = bus_read(b, 0xFFFC).1;
            let hi = bus_read(bus_read(b, 0xFFFC).0, 0xFFFD).1;
            &&& r.a == 0 && r.x == 0 && r.y == 0
            &&& r.sp == 0xFD && r.status == 0x24
            &&& r.pc as int == hi as int * 256 + lo as int
            &&& r.cycles == c.cycles + 8 || c.cycles + 8 > u64::MAX
            &&& reset_of(d, b).0 == (Cpu { cycles: reset_of(d, b).0.cycles, ..r })
            &&& reset_of(d, b).1 == b2
        }),
{
}

/// The bytes `code` lie at `pc`, and reading them changes nothing on the bus (as
/// for code in RAM or in cartridge space).
pub open spec fn code_at(b: BusView, pc: u16, code: Seq<u8>) -> bool {
    &&& pc as int + code.len() <= 0x10000
    &&& forall|i: int| 0 <= i < code.len() ==> #[trigger] bus_read(b, (pc + i) as u16) == (b, code[i])
}

/// Fetching from code laid out by `code_at`: the opcode and the next one or two
/// bytes, with PC moving past each.
proof fn lemma_step_reads_code(c: Cpu, b: BusView, code: Seq<u8>)
    requires
        code_at(b, c.pc, code),
        1 <= code.len() <= 3,
    ensures
        fetch_byte(c, b) == (Cpu { pc: wrap16(c.pc + 1), ..c }, b, code[0]),
        code.len() >= 2 ==> fetch_byte(Cpu { pc: wrap16(c.pc + 1), ..c }, b) == (Cpu { pc: wrap16(c.pc + 2), ..c }, b, code[1]),
        code.len() >= 3 ==> fetch_word_of(Cpu { pc: wrap16(c.pc + 1), ..c }, b) == (Cpu { pc: wrap16(c.pc + 3), ..c }, b, word(code[1], code[2])),
{
    reveal(fetch_byte);
    reveal(fetch_word_of);
    assert(bus_read(b, (c.pc + 0) as u16) == (b, code[0]));
    assert((c.pc + 0) as u16 == c.pc);
    if code.len() >= 2 {
        assert(bus_read(b, (c.pc + 1) as u16) == (b, code[1]));
        assert(wrap16(c.pc + 1) == (c.pc + 1) as u16);
    }
    if code.len() >= 3 {
        assert(bus_read(b, (c.pc + 2) as u16) == (b, code[2]));
        assert(wrap16(c.pc + 2) == (c.pc + 2) as u16);
        assert(wrap16(wrap16(c.pc + 1) + 1) == wrap16(c.pc + 2));
        assert(wrap16(wrap16(c.pc + 2) + 1) == wrap16(c.pc + 3));
    }
    if code.len() >= 2 {
        assert(wrap16(wrap16(c.pc + 1) + 1) == wrap16(c.pc + 2));
    }
}

/// LDA #v ($A9): A takes the byte after the opcode; Z and N describe it; 2 cycles.
pub proof fn lemma_lda_immediate(c: Cpu, b: BusView, o1: u8, o2: u8)
    requires
        code_at(b, c.pc, seq![0xA9u8, o1]),
    ensures
        ({
            let (c1, b1, n) = step_of(c, b);
            let ea: u16 = (c.pc + 1) as u16;
            let (b2, v) = bus_read(b, ea);
            &&& c1 == (Cpu { a: v, status: nz(c.status, v), pc: wrap16(c.pc + 2), cycles: (c.cycles + n) as u64, ..c })
            &&& b1 == b2
            &&& n == 2
        }),
{
    lemma_step_reads_code(c, b, seq![0xA9u8, o1]);
    reveal(decode);
    reveal(run_instr);
    reveal(operand);
    reveal(zero_page_operand);
    reveal(absolute_operand);
    reveal(indexed_indirect_operand);
    reveal(indirect_indexed_operand);
    reveal(run_op);
    reveal(access_op);
}

/// LDA zp ($A5): A takes the byte at zero-page address z; 3 cycles.
pub proof fn lemma_lda_zero_page(c: Cpu, b: BusView, o1: u8, o2: u8)
    requires
        code_at(b, c.pc, seq![0xA5u8, o1]),
    ensures
        ({
            let (c1, b1, n) = step_of(c, b);
            let ea: u16 = o1 as u16;
            let (b2, v) = bus_read(b, ea);
            &&& c1 == (Cpu { a: v, status: nz(c.status, v), pc: wrap16(c.pc + 2), cycles: (c.cycles + n) as u64, ..c })
            &&& b1 == b2
            &&& n == 3
        }),
{
    lemma_step_reads_code(c, b, seq![0xA5u8, o1]);
    reveal(decode);
    reveal(run_instr);
    reveal(operand);
    reveal(zero_page_operand);
    reveal(absolute_operand);
    reveal(indexed_indirect_operand);
    reveal(indirect_indexed_operand);
    reveal(run_op);
    reveal(access_op);
}

/// LDA zp,X ($B5): A takes the byte at (z + X) mod 256, indexing wrapping within
/// page zero; 4 cycles.
pub proof fn lemma_lda_zero_page_x(c: Cpu, b: BusView, o1: u8, o2: u8)
    requires
        code_at(b, c.pc, seq![0xB5u8, o1]),
    ensures
        ({
            let (c1, b1, n) = step_of(c, b);
            let ea: u16 = ((o1 as int + c.x as int) % 256) as u16;
            let (b2, v) = bus_read(b, ea);
            &&& c1 == (Cpu { a: v, status: nz(c.status, v), pc: wrap16(c.pc + 2), cycles: (c.cycles + n) as u64, ..c })
            &&& b1 == b2
            &&& n == 4
        }),
{
    lemma_step_reads_code(c, b, seq![0xB5u8, o1]);
    reveal(decode);
    reveal(run_instr);
    reveal(operand);
    reveal(zero_page_operand);
    reveal(absolute_operand);
    reveal(indexed_indirect_operand);
    reveal(indirect_indexed_operand);
    reveal(run_op);
    reveal(access_op);
}

/// LDA abs ($AD): A takes the byte at the little-endian address after the
/// opcode; 4 cycles.
pub proof fn lemma_lda_absolute(c: Cpu, b: BusView, o1: u8, o2: u8)
    requires
        code_at(b, c.pc, seq![0xADu8, o1, o2]),
    ensures
        ({
            let (c1, b1, n) = step_of(c, b);
            let ea: u16 = (o2 as int * 256 + o1 as int) as u16;
            let (b2, v) = bus_read(b, ea);
            &&& c1 == (Cpu { a: v, status: nz(c.status, v), pc: wrap16(c.pc + 3), cycles: (c.cycles + n) as u64, ..c })
            &&& b1 == b2
            &&& n == 4
        }),
{
    lemma_step_reads_code(c, b, seq![0xADu8, o1, o2]);
    reveal(decode);
    reveal(run_instr);
    reveal(operand);
    reveal(zero_page_operand);
    reveal(absolute_operand);
    reveal(indexed_indirect_operand);
    reveal(indirect_indexed_operand);
    reveal(run_op);
    reveal(access_op);
}

/// LDA abs,X ($BD): A takes the byte at address + X (mod $10000); 4 cycles, one
/// more when the indexing crosses into another page.
pub proof fn lemma_lda_absolute_x(c: Cpu, b: BusView, o1: u8, o2: u8)
    requires
        code_at(b, c.pc, seq![0xBDu8, o1, o2]),
    ensures
        ({
            let (c1, b1, n) = step_of(c, b);
            let ea: u16 = ((o2 as int * 256 + o1 as int + c.x as int) % 0x10000) as u16;
            let (b2, v) = bus_read(b, ea);
            &&& c1 == (Cpu { a: v, status: nz(c.status, v), pc: wrap16(c.pc + 3), cycles: (c.cycles + n) as u64, ..c })
            &&& b1 == b2
            &&& n == (if o2 as int != ((o2 as int * 256 + o1 as int + c.x as int) % 0x10000) / 256 { 5u8 } else { 4u8 })
        }),
{
    lemma_step_reads_code(c, b, seq![0xBDu8, o1, o2]);
    reveal(decode);
    reveal(run_instr);
    reveal(operand);
    reveal(zero_page_operand);
    reveal(absolute_operand);
    reveal(indexed_indirect_operand);
    reveal(indirect_indexed_operand);
    reveal(run_op);
    reveal(access_op);
}

/// LDA abs,Y ($B9): A takes the byte at address + Y (mod $10000); 4 cycles, one
/// more when the indexing crosses into another page.
pub proof fn lemma_lda_absolute_y(c: Cpu, b: BusView, o1: u8, o2: u8)
    requires
        code_at(b, c.pc, seq![0xB9u8, o1, o2]),
    ensures
        ({
            let (c1, b1, n) = step_of(c, b);
            let ea: u16 = ((o2 as int * 256 + o1 as int + c.y as int) % 0x10000) as u16;
            let (b2, v) = bus_read(b, ea);
            &&& c1 == (Cpu { a: v, status: nz(c.status, v), pc: wrap16(c.pc + 3), cycles: (c.cycles + n) as u64, ..c })
            &&& b1 == b2
            &&& n == (if o2 as int != ((o2 as int * 256 + o1 as int + c.y as int) % 0x10000) / 256 { 5u8 } else { 4u8 })
        }),
{
    lemma_step_reads_code(c, b, seq![0xB9u8, o1, o2]);
    reveal(decode);
    reveal(run_instr);
    reveal(operand);
    reveal(zero_page_operand);
    reveal(absolute_operand);
    reveal(indexed_indirect_operand);
    reveal(indirect_indexed_operand);
    reveal(run_op);
    reveal(access_op);
}

/// LDA (zp,X) ($A1): the pointer sits at zero-page address (z + X) mod 256, its
/// high byte at the next zero-page address (wrapping within page zero); A takes
/// the byte it points to; 6 cycles.
pub proof fn lemma_lda_indexed_indirect(c: Cpu, b: BusView, o1: u8)
    requires
        code_at(b, c.pc, seq![0xA1u8, o1]),
    ensures
        ({
            let (c1, b1, n) = step_of(c, b);
            let ptr = (o1 as int + c.x as int) % 256;
            let lo = bus_read(b, ptr as u16).1;
            let hi = bus_read(b, ((ptr + 1) % 256) as u16).1;
            let (b2, v) = bus_read(b, (hi as int * 256 + lo as int) as u16);
            &&& c1 == (Cpu { a: v, status: nz(c.status, v), pc: wrap16(c.pc + 2), cycles: (c.cycles + n) as u64, ..c })
            &&& b1 == b2
            &&& n == 6
        }),
{
    lemma_step_reads_code(c, b, seq![0xA1u8, o1]);
    reveal(bus_read);
    reveal(decode);
    reveal(run_instr);
    reveal(operand);
    reveal(zero_page_operand);
    reveal(absolute_operand);
    reveal(indexed_indirect_operand);
    reveal(indirect_indexed_operand);
    reveal(run_op);
    reveal(access_op);
}

/// LDA (zp),Y ($B1): the pointer sits at zero-page address z (its high byte at
/// (z + 1) mod 256); A takes the byte at pointer + Y (mod $10000); 5 cycles, one
/// more when adding Y crosses into another page.
pub proof fn lemma_lda_indirect_indexed(c: Cpu, b: BusView, o1: u8)
    requires
        code_at(b, c.pc, seq![0xB1u8, o1]),
    ensures
        ({
            let (c1, b1, n) = step_of(c, b);
            let lo = bus_read(b, o1 as u16).1;
            let hi = bus_read(b, ((o1 as int + 1) % 256) as u16).1;
            let base = hi as int * 256 + lo as int;
            let ea = (base + c.y as int) % 0x10000;
            let (b2, v) = bus_read(b, ea as u16);
            &&& c1 == (Cpu { a: v, status: nz(c.status, v), pc: wrap16(c.pc + 2), cycles: (c.cycles + n) as u64, ..c })
            &&& b1 == b2
            &&& n == (if hi as int != ea / 256 { 6u8 } else { 5u8 })
        }),
{
    lemma_step_reads_code(c, b, seq![0xB1u8, o1]);
    reveal(bus_read);
    reveal(decode);
    reveal(run_instr);
    reveal(operand);
    reveal(zero_page_operand);
    reveal(absolute_operand);
    reveal(indexed_indirect_operand);
    reveal(indirect_indexed_operand);
    reveal(run_op);
    reveal(access_op);
}

/// STA zp,X ($95): A is written to zero-page address (z + X) mod 256 and nothing
/// else changes but PC and the cycle count; 4 cycles.
pub proof fn lemma_sta_zero_page_x(c: Cpu, b: BusView, o1: u8)
    requires
        code_at(b, c.pc, seq![0x95u8, o1]),
    ensures
        ({
            let (c1, b1, n) = step_of(c, b);
            &&& c1 == (Cpu { pc: wrap16(c.pc + 2), cycles: (c.cycles + n) as u64, ..c })
            &&& b1 == bus_write(b, ((o1 as int + c.x as int) % 256) as u16, c.a)
            &&& n == 4
        }),
{
    lemma_step_reads_code(c, b, seq![0x95u8, o1]);
    reveal(decode);
    reveal(run_instr);
    reveal(operand);
    reveal(zero_page_operand);
    reveal(absolute_operand);
    reveal(indexed_indirect_operand);
    reveal(indirect_indexed_operand);
    reveal(run_op);
    reveal(access_op);
}

/// STA abs ($8D): A is written to the little-endian address after the opcode;
/// 4 cycles.
pub proof fn lemma_sta_absolute(c: Cpu, b: BusView, o1: u8, o2: u8)
    requires
        code_at(b, c.pc, seq![0x8Du8, o1, o2]),
    ensures
        ({
            let (c1, b1, n) = step_of(c, b);
            &&& c1 == (Cpu { pc: wrap16(c.pc + 3), cycles: (c.cycles + n) as u64, ..c })
            &&& b1 == bus_write(b, (o2 as int * 256 + o1 as int) as u16, c.a)
            &&& n == 4
        }),
{
    lemma_step_reads_code(c, b, seq![0x8Du8, o1, o2]);
    reveal(decode);
    reveal(run_instr);
    reveal(operand);
    reveal(zero_page_operand);
    reveal(absolute_operand);
    reveal(indexed_indirect_operand);
    reveal(indirect_indexed_operand);
    reveal(run_op);
    reveal(access_op);
}

} // verus!
