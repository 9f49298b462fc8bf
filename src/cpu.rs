use vstd::prelude::*;
use crate::memory::{Memory, word, low_byte, high_byte};
use crate::memory_management_unit::{BusView, MemoryManagementUnit, bus_mapped};

verus! {

/// The four condition bits of the flag register.
#[derive(Debug, PartialEq, Eq, Structural, Clone, Copy)]
pub enum Flag {
    /// Set iff the result of an operation is zero.
    Z,
    /// Set iff the last arithmetic operation was a subtraction.
    N,
    /// Set iff the operation carried out of the low nibble.
    H,
    /// Set iff the operation carried out of bit 7 (bit 15 for 16-bit adds),
    /// borrowed, or shifted out a one bit.
    C,
}

/// The register file. The flag register is held as its four meaningful bits;
/// register pairs are always formed from their two halves.
#[derive(Debug, PartialEq, Eq, Structural, Clone, Copy)]
pub struct Cpu {
    pub a: u8,
    pub b: u8,
    pub c: u8,
    pub d: u8,
    pub e: u8,
    pub h: u8,
    pub l: u8,
    pub zero: bool,
    pub subtract: bool,
    pub half_carry: bool,
    pub carry: bool,
    pub sp: u16,
    pub pc: u16,
    /// Interrupt master enable: whether pending interrupts are serviced.
    pub ime: bool,
    /// Set by HALT: no instruction runs until an interrupt is pending.
    pub halted: bool,
}

/// Why an instruction could not be executed. Nothing is changed when one comes.
#[derive(Debug, PartialEq, Eq, Structural, Clone, Copy)]
pub enum Fault {
    /// The opcode is not emulated.
    UnimplementedOpcode(u8),
    /// The bus does not decode an address the instruction touches.
    UnmappedAddress(u16),
}

/// The result of one instruction: the new registers, the new bus and the cycle cost.
pub type Outcome = Result<(Cpu, BusView, u32), Fault>;

// ---------------------------------------------------------------------------
// Arithmetic on bytes and words

pub open spec fn inc8(x: u8) -> u8 {
    ((x + 1) % 256) as u8
}

pub open spec fn dec8(x: u8) -> u8 {
    ((x + 255) % 256) as u8
}

pub open spec fn add16(x: u16, y: int) -> u16 {
    ((x + y + 65536) % 65536) as u16
}

/// A byte read as a two's-complement offset.
pub open spec fn signed(x: u8) -> int {
    if x < 128 { x as int } else { x - 256 }
}

/// `2^i` for a bit index below 8.
pub open spec fn bit_mask(i: u8) -> u8 {
    if i == 0 { 1 } else if i == 1 { 2 } else if i == 2 { 4 } else if i == 3 { 8 }
    else if i == 4 { 16 } else if i == 5 { 32 } else if i == 6 { 64 } else { 128 }
}

pub open spec fn bit_is_set(x: u8, i: u8) -> bool {
    x & bit_mask(i) != 0
}

// ---------------------------------------------------------------------------
// Registers

pub open spec fn hl(c: Cpu) -> u16 {
    word(c.l, c.h)
}

pub open spec fn bc(c: Cpu) -> u16 {
    word(c.c, c.b)
}

pub open spec fn de(c: Cpu) -> u16 {
    word(c.e, c.d)
}

/// The flag register as a byte: Z, N, H, C in bits 7 to 4.
pub open spec fn flags_byte(c: Cpu) -> u8 {
    ((if c.zero { 128int } else { 0 }) + (if c.subtract { 64int } else { 0 }) + (if c.half_carry {
        32int
    } else {
        0
    }) + (if c.carry { 16int } else { 0 })) as u8
}

pub open spec fn with_flags_byte(c: Cpu, f: u8) -> Cpu {
    Cpu {
        zero: f / 128 == 1,
        subtract: (f / 64) % 2 == 1,
        half_carry: (f / 32) % 2 == 1,
        carry: (f / 16) % 2 == 1,
        ..c
    }
}

pub open spec fn with_flags(c: Cpu, z: bool, n: bool, h: bool, cy: bool) -> Cpu {
    Cpu { zero: z, subtract: n, half_carry: h, carry: cy, ..c }
}

/// The register that a three-bit operand code names (6 names the byte at HL).
pub open spec fn reg_of(c: Cpu, sel: u8) -> u8 {
    if sel == 0 { c.b } else if sel == 1 { c.c } else if sel == 2 { c.d }
    else if sel == 3 { c.e } else if sel == 4 { c.h } else if sel == 5 { c.l } else { c.a }
}

pub open spec fn with_reg(c: Cpu, sel: u8, v: u8) -> Cpu {
    if sel == 0 { Cpu { b: v, ..c } } else if sel == 1 { Cpu { c: v, ..c } }
    else if sel == 2 { Cpu { d: v, ..c } } else if sel == 3 { Cpu { e: v, ..c } }
    else if sel == 4 { Cpu { h: v, ..c } } else if sel == 5 { Cpu { l: v, ..c } }
    else { Cpu { a: v, ..c } }
}

pub open spec fn with_hl(c: Cpu, v: u16) -> Cpu {
    Cpu { h: high_byte(v), l: low_byte(v), ..c }
}

pub open spec fn with_pc(c: Cpu, pc: u16) -> Cpu {
    Cpu { pc: pc, ..c }
}

// ---------------------------------------------------------------------------
// Bus access

/// The byte at `addr`, or the fault of touching an address the bus does not decode.
pub open spec fn load(m: BusView, addr: u16) -> Result<u8, Fault> {
    if bus_mapped(addr) {
        Ok(m.read(addr))
    } else {
        Err(Fault::UnmappedAddress(addr))
    }
}

/// Fetches the byte at `pc` and steps past it.
pub open spec fn fetch8(c: Cpu, m: BusView) -> Result<(Cpu, u8), Fault> {
    match load(m, c.pc) {
        Ok(b) => Ok((with_pc(c, add16(c.pc, 1)), b)),
        Err(f) => Err(f),
    }
}

/// Fetches a little-endian word at `pc` and steps past it.
pub open spec fn fetch16(c: Cpu, m: BusView) -> Result<(Cpu, u16), Fault> {
    match fetch8(c, m) {
        Ok((c1, lo)) => match fetch8(c1, m) {
            Ok((c2, hi)) => Ok((c2, word(lo, hi))),
            Err(f) => Err(f),
        },
        Err(f) => Err(f),
    }
}

/// The operand that a three-bit code selects.
pub open spec fn operand_of(c: Cpu, m: BusView, sel: u8) -> Result<u8, Fault> {
    if sel == 6 {
        load(m, hl(c))
    } else {
        Ok(reg_of(c, sel))
    }
}

/// Stores `v` where a three-bit code points; the byte at HL goes over the bus.
pub open spec fn store(c: Cpu, m: BusView, sel: u8, v: u8) -> (Cpu, BusView) {
    if sel == 6 {
        (c, m.write(hl(c), v))
    } else {
        (with_reg(c, sel, v), m)
    }
}

/// Pushes a word: the high byte goes below SP, then the low byte below that.
pub open spec fn push16(c: Cpu, m: BusView, v: u16) -> Result<(Cpu, BusView), Fault> {
    let s1 = add16(c.sp, -1);
    let s2 = add16(c.sp, -2);
    if !bus_mapped(s1) {
        Err(Fault::UnmappedAddress(s1))
    } else if !bus_mapped(s2) {
        Err(Fault::UnmappedAddress(s2))
    } else {
        Ok((Cpu { sp: s2, ..c }, m.write(s1, high_byte(v)).write(s2, low_byte(v))))
    }
}

/// Pops a word: the low byte at SP, then the high byte above it.
pub open spec fn pop16(c: Cpu, m: BusView) -> Result<(Cpu, u16), Fault> {
    match load(m, c.sp) {
        Ok(lo) => match load(m, add16(c.sp, 1)) {
            Ok(hi) => Ok((Cpu { sp: add16(c.sp, 2), ..c }, word(lo, hi))),
            Err(f) => Err(f),
        },
        Err(f) => Err(f),
    }
}

// ---------------------------------------------------------------------------
// Control flow

/// The condition of a conditional jump, call or return (bits 4..3 of the opcode).
pub open spec fn condition(c: Cpu, op: u8) -> bool {
    let cc = (op / 8) % 4;
    if cc == 0 { !c.zero } else if cc == 1 { c.zero } else if cc == 2 { !c.carry } else { c.carry }
}

pub open spec fn is_jump_op(op: u8) -> bool {
    ||| op == 0xC3 || op == 0xC2 || op == 0xCA || op == 0xD2 || op == 0xDA || op == 0xE9
    ||| op == 0x18 || op == 0x20 || op == 0x28 || op == 0x30 || op == 0x38
    ||| op == 0xCD || op == 0xC4 || op == 0xCC || op == 0xD4 || op == 0xDC
    ||| op == 0xC9 || op == 0xD9 || op == 0xC0 || op == 0xC8 || op == 0xD0 || op == 0xD8
    ||| (op >= 0xC0 && op % 8 == 7)
}

/// Jumps, calls, returns and restarts; `c.pc` is already past the opcode.
#[verifier::opaque]
pub open spec fn jump_spec(op: u8, c: Cpu, m: BusView) -> Outcome {
    if op == 0xC3 || op == 0xC2 || op == 0xCA || op == 0xD2 || op == 0xDA {
        match fetch16(c, m) {
            Ok((c1, target)) => if op == 0xC3 || condition(c, op) {
                Ok((with_pc(c1, target), m, 16))
            } else {
                Ok((c1, m, 12))
            },
            Err(f) => Err(f),
        }
    } else if op == 0xE9 {
        Ok((with_pc(c, hl(c)), m, 4))
    } else if op == 0x18 || op == 0x20 || op == 0x28 || op == 0x30 || op == 0x38 {
        match fetch8(c, m) {
            Ok((c1, n)) => if op == 0x18 || condition(c, op) {
                Ok((with_pc(c1, add16(c1.pc, signed(n))), m, 12))
            } else {
                Ok((c1, m, 8))
            },
            Err(f) => Err(f),
        }
    } else if op == 0xCD || op == 0xC4 || op == 0xCC || op == 0xD4 || op == 0xDC {
        match fetch16(c, m) {
            Ok((c1, target)) => if op == 0xCD || condition(c, op) {
                match push16(c1, m, c1.pc) {
                    Ok((c2, m2)) => Ok((with_pc(c2, target), m2, 24)),
                    Err(f) => Err(f),
                }
            } else {
                Ok((c1, m, 12))
            },
            Err(f) => Err(f),
        }
    } else if op == 0xC9 || op == 0xD9 || op == 0xC0 || op == 0xC8 || op == 0xD0 || op == 0xD8 {
        if op == 0xC9 || op == 0xD9 || condition(c, op) {
            match pop16(c, m) {
                Ok((c1, target)) => Ok((
                    Cpu { pc: target, ime: c.ime || op == 0xD9, ..c1 },
                    m,
                    if op == 0xC9 || op == 0xD9 { 16 } else { 20 },
                )),
                Err(f) => Err(f),
            }
        } else {
            Ok((c, m, 8))
        }
    } else if op >= 0xC0 && op % 8 == 7 {
        match push16(c, m, c.pc) {
            Ok((c1, m1)) => Ok((with_pc(c1, (op - 0xC7) as u16), m1, 16)),
            Err(f) => Err(f),
        }
    } else {
        Err(Fault::UnimplementedOpcode(op))
    }
}

// ---------------------------------------------------------------------------
// 8-bit loads

pub open spec fn is_load8_op(op: u8) -> bool {
    ||| (0x40 <= op && op <= 0x7F && op != 0x76)
    ||| (op < 0x40 && op % 8 == 6)
    ||| op == 0x02 || op == 0x12 || op == 0x0A || op == 0x1A
    ||| op == 0x22 || op == 0x2A || op == 0x32 || op == 0x3A
    ||| op == 0xE0 || op == 0xF0 || op == 0xE2 || op == 0xF2 || op == 0xEA || op == 0xFA
}

/// A store of A to `addr`.
pub open spec fn store_a(c: Cpu, m: BusView, addr: u16, cycles: u32) -> Outcome {
    if bus_mapped(addr) {
        Ok((c, m.write(addr, c.a), cycles))
    } else {
        Err(Fault::UnmappedAddress(addr))
    }
}

/// A load of A from `addr`.
pub open spec fn load_a(c: Cpu, m: BusView, addr: u16, cycles: u32) -> Outcome {
    match load(m, addr) {
        Ok(v) => Ok((Cpu { a: v, ..c }, m, cycles)),
        Err(f) => Err(f),
    }
}

#[verifier::opaque]
pub open spec fn load8_spec(op: u8, c: Cpu, m: BusView) -> Outcome {
    if 0x40 <= op && op <= 0x7F && op != 0x76 {
        let dst = (op / 8) % 8;
        let src = op % 8;
        match operand_of(c, m, src) {
            Ok(v) => if dst == 6 && !bus_mapped(hl(c)) {
                Err(Fault::UnmappedAddress(hl(c)))
            } else {
                let (c1, m1) = store(c, m, dst, v);
                Ok((c1, m1, if dst == 6 || src == 6 { 8 } else { 4 }))
            },
            Err(f) => Err(f),
        }
    } else if op < 0x40 && op % 8 == 6 {
        let dst = op / 8;
        match fetch8(c, m) {
            Ok((c1, n)) => if dst == 6 && !bus_mapped(hl(c1)) {
                Err(Fault::UnmappedAddress(hl(c1)))
            } else {
                let (c2, m2) = store(c1, m, dst, n);
                Ok((c2, m2, if dst == 6 { 12 } else { 8 }))
            },
            Err(f) => Err(f),
        }
    } else if op == 0x02 {
        store_a(c, m, bc(c), 8)
    } else if op == 0x12 {
        store_a(c, m, de(c), 8)
    } else if op == 0x0A {
        load_a(c, m, bc(c), 8)
    } else if op == 0x1A {
        load_a(c, m, de(c), 8)
    } else if op == 0x22 {
        store_a(with_hl(c, add16(hl(c), 1)), m, hl(c), 8)
    } else if op == 0x32 {
        store_a(with_hl(c, add16(hl(c), -1)), m, hl(c), 8)
    } else if op == 0x2A {
        load_a(with_hl(c, add16(hl(c), 1)), m, hl(c), 8)
    } else if op == 0x3A {
        load_a(with_hl(c, add16(hl(c), -1)), m, hl(c), 8)
    } else if op == 0xE0 || op == 0xF0 {
        match fetch8(c, m) {
            Ok((c1, n)) => if op == 0xE0 {
                store_a(c1, m, add16(0xFF00, n as int), 12)
            } else {
                load_a(c1, m, add16(0xFF00, n as int), 12)
            },
            Err(f) => Err(f),
        }
    } else if op == 0xE2 {
        store_a(c, m, add16(0xFF00, c.c as int), 8)
    } else if op == 0xF2 {
        load_a(c, m, add16(0xFF00, c.c as int), 8)
    } else if op == 0xEA || op == 0xFA {
        match fetch16(c, m) {
            Ok((c1, addr)) => if op == 0xEA {
                store_a(c1, m, addr, 16)
            } else {
                load_a(c1, m, addr, 16)
            },
            Err(f) => Err(f),
        }
    } else {
        Err(Fault::UnimplementedOpcode(op))
    }
}

// ---------------------------------------------------------------------------
// 16-bit loads, stack and 16-bit arithmetic

pub open spec fn is_load16_op(op: u8) -> bool {
    ||| (op < 0x40 && op % 16 == 1)
    ||| (op < 0x40 && op % 16 == 3)
    ||| (op < 0x40 && op % 16 == 0x9)
    ||| (op < 0x40 && op % 16 == 0xB)
    ||| op == 0x08
    ||| (op >= 0xC0 && op % 16 == 1)
    ||| (op >= 0xC0 && op % 16 == 5)
    ||| op == 0xF8 || op == 0xF9 || op == 0xE8
}

/// The pair that bits 5..4 of the opcode name: BC, DE, HL, SP.
pub open spec fn pair_of(c: Cpu, op: u8) -> u16 {
    let p = (op / 16) % 4;
    if p == 0 { bc(c) } else if p == 1 { de(c) } else if p == 2 { hl(c) } else { c.sp }
}

pub open spec fn with_pair(c: Cpu, op: u8, v: u16) -> Cpu {
    let p = (op / 16) % 4;
    if p == 0 {
        Cpu { b: high_byte(v), c: low_byte(v), ..c }
    } else if p == 1 {
        Cpu { d: high_byte(v), e: low_byte(v), ..c }
    } else if p == 2 {
        with_hl(c, v)
    } else {
        Cpu { sp: v, ..c }
    }
}

/// The pair that PUSH and POP name: BC, DE, HL, AF.
pub open spec fn stack_pair_of(c: Cpu, op: u8) -> u16 {
    if (op / 16) % 4 == 3 {
        word(flags_byte(c), c.a)
    } else {
        pair_of(c, op)
    }
}

pub open spec fn with_stack_pair(c: Cpu, op: u8, v: u16) -> Cpu {
    if (op / 16) % 4 == 3 {
        with_flags_byte(Cpu { a: high_byte(v), ..c }, low_byte(v))
    } else {
        with_pair(c, op, v)
    }
}

#[verifier::opaque]
pub open spec fn load16_spec(op: u8, c: Cpu, m: BusView) -> Outcome {
    if op < 0x40 && op % 16 == 1 {
        match fetch16(c, m) {
            Ok((c1, v)) => Ok((with_pair(c1, op, v), m, 12)),
            Err(f) => Err(f),
        }
    } else if op < 0x40 && op % 16 == 3 {
        Ok((with_pair(c, op, add16(pair_of(c, op), 1)), m, 8))
    } else if op < 0x40 && op % 16 == 0xB {
        Ok((with_pair(c, op, add16(pair_of(c, op), -1)), m, 8))
    } else if op < 0x40 && op % 16 == 0x9 {
        let x = hl(c);
        let y = pair_of(c, op);
        Ok((
            Cpu {
                subtract: false,
                half_carry: x % 4096 + y % 4096 > 4095,
                carry: x + y > 65535,
                ..with_hl(c, add16(x, y as int))
            },
            m,
            8,
        ))
    } else if op == 0x08 {
        match fetch16(c, m) {
            Ok((c1, addr)) => if !bus_mapped(addr) {
                Err(Fault::UnmappedAddress(addr))
            } else if !bus_mapped(add16(addr, 1)) {
                Err(Fault::UnmappedAddress(add16(addr, 1)))
            } else {
                Ok((c1, m.write(addr, low_byte(c.sp)).write(add16(addr, 1), high_byte(c.sp)), 20))
            },
            Err(f) => Err(f),
        }
    } else if op >= 0xC0 && op % 16 == 1 {
        match pop16(c, m) {
            Ok((c1, v)) => Ok((with_stack_pair(c1, op, v), m, 12)),
            Err(f) => Err(f),
        }
    } else if op >= 0xC0 && op % 16 == 5 {
        match push16(c, m, stack_pair_of(c, op)) {
            Ok((c1, m1)) => Ok((c1, m1, 16)),
            Err(f) => Err(f),
        }
    } else if op == 0xF8 {
        match fetch8(c, m) {
            Ok((c1, n)) => Ok((
                with_flags(
                    with_hl(c1, add16(c.sp, signed(n))),
                    false,
                    false,
                    c.sp % 16 + n % 16 > 15,
                    c.sp % 256 + n > 255,
                ),
                m,
                12,
            )),
            Err(f) => Err(f),
        }
    } else if op == 0xE8 {
        match fetch8(c, m) {
            Ok((c1, n)) => Ok((
                with_flags(
                    Cpu { sp: add16(c.sp, signed(n)), ..c1 },
                    false,
                    false,
                    c.sp % 16 + n % 16 > 15,
                    c.sp % 256 + n > 255,
                ),
                m,
                16,
            )),
            Err(f) => Err(f),
        }
    } else if op == 0xF9 {
        Ok((Cpu { sp: hl(c), ..c }, m, 8))
    } else {
        Err(Fault::UnimplementedOpcode(op))
    }
}

// ---------------------------------------------------------------------------
// 8-bit arithmetic and logic

pub open spec fn is_alu_op(op: u8) -> bool {
    ||| (0x80 <= op && op <= 0xBF)
    ||| (op >= 0xC0 && op % 8 == 6)
    ||| (op < 0x40 && (op % 8 == 4 || op % 8 == 5))
    ||| op == 0x2F || op == 0x37 || op == 0x3F || op == 0x27
}

/// One of ADD, ADC, SUB, SBC, AND, XOR, OR, CP (by `kind`, 0 to 7) of A and `x`.
pub open spec fn alu(c: Cpu, kind: u8, x: u8) -> Cpu {
    let a = c.a;
    let cin: int = if c.carry { 1 } else { 0 };
    if kind == 0 {
        let r = ((a + x) % 256) as u8;
        with_flags(Cpu { a: r, ..c }, r == 0, false, a % 16 + x % 16 > 15, a + x > 255)
    } else if kind == 1 {
        let r = ((a + x + cin) % 256) as u8;
        with_flags(Cpu { a: r, ..c }, r == 0, false, a % 16 + x % 16 + cin > 15, a + x + cin > 255)
    } else if kind == 2 {
        let r = ((a - x + 256) % 256) as u8;
        with_flags(Cpu { a: r, ..c }, r == 0, true, a % 16 < x % 16, a < x)
    } else if kind == 3 {
        let r = ((a - x - cin + 512) % 256) as u8;
        with_flags(Cpu { a: r, ..c }, r == 0, true, a % 16 < x % 16 + cin, a < x + cin)
    } else if kind == 4 {
        let r = a & x;
        with_flags(Cpu { a: r, ..c }, r == 0, false, true, false)
    } else if kind == 5 {
        let r = a ^ x;
        with_flags(Cpu { a: r, ..c }, r == 0, false, false, false)
    } else if kind == 6 {
        let r = a | x;
        with_flags(Cpu { a: r, ..c }, r == 0, false, false, false)
    } else {
        compare(c, x)
    }
}

/// CP: the flags of A - `x`; A itself is kept.
pub open spec fn compare(c: Cpu, x: u8) -> Cpu {
    with_flags(c, c.a == x, true, c.a % 16 < x % 16, c.a < x)
}

/// DAA: adjusts A to packed decimal after an addition or subtraction of two
/// packed decimal bytes, by the N, H and C flags.
pub open spec fn daa(c: Cpu) -> Cpu {
    let a = c.a as int;
    if !c.subtract {
        let fix_high = c.carry || a > 0x99;
        let a1 = if fix_high { a + 0x60 } else { a };
        let a2 = if c.half_carry || a % 16 > 9 { a1 + 6 } else { a1 };
        let r = (a2 % 256) as u8;
        Cpu { a: r, zero: r == 0, half_carry: false, carry: fix_high, ..c }
    } else {
        let a1 = if c.carry { a - 0x60 } else { a };
        let a2 = if c.half_carry { a1 - 6 } else { a1 };
        let r = ((a2 + 256) % 256) as u8;
        Cpu { a: r, zero: r == 0, half_carry: false, ..c }
    }
}

/// INC or DEC of one byte: Z, N and H follow the result, C is kept.
pub open spec fn inc_dec(c: Cpu, x: u8, is_dec: bool) -> (Cpu, u8) {
    if is_dec {
        (Cpu { zero: dec8(x) == 0, subtract: true, half_carry: x % 16 == 0, ..c }, dec8(x))
    } else {
        (Cpu { zero: inc8(x) == 0, subtract: false, half_carry: x % 16 == 15, ..c }, inc8(x))
    }
}

/// INC r / DEC r: the operand that bits 5..3 name, incremented or (odd opcodes) decremented.
pub open spec fn inc_dec_spec(op: u8, c: Cpu, m: BusView) -> Outcome {
    let sel = op / 8;
    match operand_of(c, m, sel) {
        Ok(x) => {
            let (c1, r) = inc_dec(c, x, op % 8 == 5);
            let (c2, m2) = store(c1, m, sel, r);
            Ok((c2, m2, if sel == 6 { 12 } else { 4 }))
        },
        Err(f) => Err(f),
    }
}

#[verifier::opaque]
pub open spec fn alu_spec(op: u8, c: Cpu, m: BusView) -> Outcome {
    if 0x80 <= op && op <= 0xBF {
        match operand_of(c, m, op % 8) {
            Ok(x) => Ok((alu(c, ((op - 0x80) / 8) as u8, x), m, if op % 8 == 6 { 8 } else { 4 })),
            Err(f) => Err(f),
        }
    } else if op >= 0xC0 && op % 8 == 6 {
        match fetch8(c, m) {
            Ok((c1, x)) => Ok((alu(c1, ((op - 0xC6) / 8) as u8, x), m, 8)),
            Err(f) => Err(f),
        }
    } else if op < 0x40 && (op % 8 == 4 || op % 8 == 5) {
        inc_dec_spec(op, c, m)
    } else if op == 0x27 {
        Ok((daa(c), m, 4))
    } else if op == 0x2F {
        Ok((Cpu { a: (255 - c.a) as u8, subtract: true, half_carry: true, ..c }, m, 4))
    } else if op == 0x37 {
        Ok((Cpu { subtract: false, half_carry: false, carry: true, ..c }, m, 4))
    } else if op == 0x3F {
        Ok((Cpu { subtract: false, half_carry: false, carry: !c.carry, ..c }, m, 4))
    } else {
        Err(Fault::UnimplementedOpcode(op))
    }
}

// ---------------------------------------------------------------------------
// Rotates, shifts and single-bit operations

pub open spec fn rlc(x: u8) -> u8 {
    ((x * 2) % 256 + x / 128) as u8
}

pub open spec fn rrc(x: u8) -> u8 {
    (x / 2 + (x % 2) * 128) as u8
}

pub open spec fn rl(x: u8, cin: bool) -> u8 {
    ((x * 2) % 256 + if cin { 1int } else { 0 }) as u8
}

pub open spec fn rr(x: u8, cin: bool) -> u8 {
    (x / 2 + if cin { 128int } else { 0 }) as u8
}

pub open spec fn sla(x: u8) -> u8 {
    ((x * 2) % 256) as u8
}

pub open spec fn sra(x: u8) -> u8 {
    (x / 2 + (x / 128) * 128) as u8
}

pub open spec fn srl(x: u8) -> u8 {
    (x / 2) as u8
}

pub open spec fn swap(x: u8) -> u8 {
    ((x % 16) * 16 + x / 16) as u8
}

/// A prefixed operation (`cb` is the second opcode byte) on `x`: the result,
/// and the registers with the flags it sets.
pub open spec fn cb_op(c: Cpu, cb: u8, x: u8) -> (Cpu, u8) {
    let kind = cb / 8;
    if kind == 0 {
        (with_flags(c, rlc(x) == 0, false, false, x >= 128), rlc(x))
    } else if kind == 1 {
        (with_flags(c, rrc(x) == 0, false, false, x % 2 == 1), rrc(x))
    } else if kind == 2 {
        (with_flags(c, rl(x, c.carry) == 0, false, false, x >= 128), rl(x, c.carry))
    } else if kind == 3 {
        (with_flags(c, rr(x, c.carry) == 0, false, false, x % 2 == 1), rr(x, c.carry))
    } else if kind == 4 {
        (with_flags(c, sla(x) == 0, false, false, x >= 128), sla(x))
    } else if kind == 5 {
        (with_flags(c, sra(x) == 0, false, false, x % 2 == 1), sra(x))
    } else if kind == 6 {
        (with_flags(c, swap(x) == 0, false, false, false), swap(x))
    } else if kind == 7 {
        (with_flags(c, srl(x) == 0, false, false, x % 2 == 1), srl(x))
    } else if kind < 16 {
        (Cpu { zero: !bit_is_set(x, (kind - 8) as u8), subtract: false, half_carry: true, ..c }, x)
    } else if kind < 24 {
        (c, x & !bit_mask((kind - 16) as u8))
    } else {
        (c, x | bit_mask((kind - 24) as u8))
    }
}

pub open spec fn is_rotate_op(op: u8) -> bool {
    op == 0x07 || op == 0x0F || op == 0x17 || op == 0x1F || op == 0xCB
}

#[verifier::opaque]
pub open spec fn rotate_spec(op: u8, c: Cpu, m: BusView) -> Outcome {
    if op == 0x07 {
        Ok((with_flags(Cpu { a: rlc(c.a), ..c }, false, false, false, c.a >= 128), m, 4))
    } else if op == 0x0F {
        Ok((with_flags(Cpu { a: rrc(c.a), ..c }, false, false, false, c.a % 2 == 1), m, 4))
    } else if op == 0x17 {
        Ok((with_flags(Cpu { a: rl(c.a, c.carry), ..c }, false, false, false, c.a >= 128), m, 4))
    } else if op == 0x1F {
        Ok((with_flags(Cpu { a: rr(c.a, c.carry), ..c }, false, false, false, c.a % 2 == 1), m, 4))
    } else if op == 0xCB {
        match fetch8(c, m) {
            Ok((c1, cb)) => match operand_of(c1, m, cb % 8) {
                Ok(x) => {
                    let (c2, r) = cb_op(c1, cb, x);
                    if 0x40 <= cb && cb < 0x80 {
                        Ok((c2, m, if cb % 8 == 6 { 16 } else { 8 }))
                    } else {
                        let (c3, m3) = store(c2, m, cb % 8, r);
                        Ok((c3, m3, if cb % 8 == 6 { 16 } else { 8 }))
                    }
                },
                Err(f) => Err(f),
            },
            Err(f) => Err(f),
        }
    } else {
        Err(Fault::UnimplementedOpcode(op))
    }
}

// ---------------------------------------------------------------------------
// One instruction

/// Executes opcode `op`; `c.pc` is already past it.
pub open spec fn execute(op: u8, c: Cpu, m: BusView) -> Outcome {
    if op == 0x00 {
        Ok((c, m, 4))
    } else if is_jump_op(op) {
        jump_spec(op, c, m)
    } else if is_load8_op(op) {
        load8_spec(op, c, m)
    } else if is_load16_op(op) {
        load16_spec(op, c, m)
    } else if is_alu_op(op) {
        alu_spec(op, c, m)
    } else if is_rotate_op(op) {
        rotate_spec(op, c, m)
    } else if op == 0xF3 || op == 0xFB {
        Ok((Cpu { ime: op == 0xFB, ..c }, m, 4))
    } else if op == 0x76 {
        Ok((Cpu { halted: true, ..c }, m, 4))
    } else {
        Err(Fault::UnimplementedOpcode(op))
    }
}

/// The interrupts both requested (0xFF0F) and enabled (0xFFFF).
pub open spec fn pending_interrupts(m: BusView) -> u8 {
    m.read(0xFFFF) & m.read(0xFF0F) & 0x1F
}

/// The pending interrupt served first: the lowest set bit of `p`.
pub open spec fn first_interrupt(p: u8) -> u8 {
    if p & 0x01 != 0 { 0 } else if p & 0x02 != 0 { 1 } else if p & 0x04 != 0 { 2 }
    else if p & 0x08 != 0 { 3 } else { 4 }
}

/// Dispatch to the first pending interrupt: its request bit is cleared, further
/// interrupts are disabled, PC is pushed and the vector 0x40 + 8k is loaded.
pub open spec fn service_interrupt(c: Cpu, m: BusView) -> Outcome {
    let k = first_interrupt(pending_interrupts(m));
    match push16(c, m, c.pc) {
        Ok((c1, m1)) => Ok((
            Cpu { ime: false, halted: false, pc: (0x40 + 8 * k) as u16, ..c1 },
            m1.write(0xFF0F, m.read(0xFF0F) & !bit_mask(k)),
            20,
        )),
        Err(f) => Err(f),
    }
}

/// One step of the CPU: between instructions a pending interrupt is serviced
/// if interrupts are enabled; a halted CPU idles for 4 cycles until one is
/// pending; otherwise the opcode at PC is fetched and executed.
pub open spec fn step(c: Cpu, m: BusView) -> Outcome {
    if c.ime && pending_interrupts(m) != 0 {
        service_interrupt(c, m)
    } else if c.halted && pending_interrupts(m) == 0 {
        Ok((c, m, 4))
    } else {
        match fetch8(Cpu { halted: false, ..c }, m) {
            Ok((c1, op)) => execute(op, c1, m),
            Err(f) => Err(f),
        }
    }
}

/// The opcodes this core executes; any other is missing coverage and fatal.
#[verifier::opaque]
pub open spec fn opcode_implemented(op: u8) -> bool {
    ||| op == 0x00 || op == 0x76 || op == 0xF3 || op == 0xFB
    ||| is_jump_op(op)
    ||| is_load8_op(op)
    ||| is_load16_op(op)
    ||| is_alu_op(op)
    ||| is_rotate_op(op)
}

/// The next step would fetch and decode an opcode this core does not execute.
pub open spec fn decodes_unimplemented(c: Cpu, m: BusView) -> bool {
    &&& !(c.ime && pending_interrupts(m) != 0)
    &&& !(c.halted && pending_interrupts(m) == 0)
    &&& bus_mapped(c.pc)
    &&& !opcode_implemented(m.read(c.pc))
}

/// `r`, `c1` and `m1` are what an instruction with outcome `o` leaves, from bus `m0`;
/// on a fault the bus is untouched and `r` carries the fault.
pub open spec fn matches_outcome(o: Outcome, r: Result<u32, Fault>, c1: Cpu, m1: BusView, m0: BusView) -> bool {
    match o {
        Ok((c, m, cycles)) => r == Ok::<u32, Fault>(cycles) && c1 == c && m1 == m,
        Err(f) => r == Err::<u32, Fault>(f) && m1 == m0,
    }
}


/// The registers after the boot ROM has run: only Z is set.
pub open spec fn post_boot() -> Cpu {
    Cpu {
        a: 0xFF,
        b: 0x00,
        c: 0x13,
        d: 0x00,
        e: 0xD8,
        h: 0x01,
        l: 0x4D,
        zero: true,
        subtract: false,
        half_carry: false,
        carry: false,
        sp: 0xFFFE,
        pc: 0x0100,
        ime: false,
        halted: false,
    }
}

pub open spec fn flag_of(c: Cpu, f: Flag) -> bool {
    match f {
        Flag::Z => c.zero,
        Flag::N => c.subtract,
        Flag::H => c.half_carry,
        Flag::C => c.carry,
    }
}

pub open spec fn with_flag(c: Cpu, f: Flag, v: bool) -> Cpu {
    match f {
        Flag::Z => Cpu { zero: v, ..c },
        Flag::N => Cpu { subtract: v, ..c },
        Flag::H => Cpu { half_carry: v, ..c },
        Flag::C => Cpu { carry: v, ..c },
    }
}

/// `x + y` on 16 bits, wrapping.
fn offset16(x: u16, y: i32) -> (r: u16)
    requires
        -65536 < y < 65536,
    ensures
        r == add16(x, y as int),
{
    ((x as i32 + y + 65536) % 65536) as u16
}

fn signed_offset(x: u8) -> (r: i32)
    ensures
        r == signed(x),
{
    if x < 128 {
        x as i32
    } else {
        x as i32 - 256
    }
}

fn bit_value(index: u8) -> (r: u8)
    requires
        index < 8,
    ensures
        r == bit_mask(index),
{
    match index {
        0 => 1,
        1 => 2,
        2 => 4,
        3 => 8,
        4 => 16,
        5 => 32,
        6 => 64,
        _ => 128,
    }
}

/// Reads a byte over the bus, or reports the address as unmapped.
fn read_bus(mmu: &MemoryManagementUnit, addr: u16) -> (r: Result<u8, Fault>)
    requires
        mmu@.inv(),
    ensures
        r == load(mmu@, addr),
{
    if MemoryManagementUnit::is_mapped(addr) {
        Ok(mmu.read8(addr))
    } else {
        Err(Fault::UnmappedAddress(addr))
    }
}

fn is_jump_opcode(op: u8) -> (r: bool)
    ensures
        r == is_jump_op(op),
{
    op == 0xC3 || op == 0xC2 || op == 0xCA || op == 0xD2 || op == 0xDA || op == 0xE9 || op == 0x18
        || op == 0x20 || op == 0x28 || op == 0x30 || op == 0x38 || op == 0xCD || op == 0xC4 || op
        == 0xCC || op == 0xD4 || op == 0xDC || op == 0xC9 || op == 0xD9 || op == 0xC0 || op == 0xC8 || op == 0xD0
        || op == 0xD8 || (op >= 0xC0 && op % 8 == 7)
}

fn is_load8_opcode(op: u8) -> (r: bool)
    ensures
        r == is_load8_op(op),
{
    (0x40 <= op && op <= 0x7F && op != 0x76) || (op < 0x40 && op % 8 == 6) || op == 0x02 || op
        == 0x12 || op == 0x0A || op == 0x1A || op == 0x22 || op == 0x2A || op == 0x32 || op == 0x3A
        || op == 0xE0 || op == 0xF0 || op == 0xE2 || op == 0xF2 || op == 0xEA || op == 0xFA
}

fn is_load16_opcode(op: u8) -> (r: bool)
    ensures
        r == is_load16_op(op),
{
    (op < 0x40 && op % 16 == 1) || (op < 0x40 && op % 16 == 3) || (op < 0x40 && op % 16 == 0x9) || (
    op < 0x40 && op % 16 == 0xB) || op == 0x08 || (op >= 0xC0 && op % 16 == 1) || (op >= 0xC0 && op
        % 16 == 5) || op == 0xF8 || op == 0xF9 || op == 0xE8
}

fn is_alu_opcode(op: u8) -> (r: bool)
    ensures
        r == is_alu_op(op),
{
    (0x80 <= op && op <= 0xBF) || (op >= 0xC0 && op % 8 == 6) || (op < 0x40 && (op % 8 == 4 || op
        % 8 == 5)) || op == 0x2F || op == 0x37 || op == 0x3F || op == 0x27
}

impl Cpu {
    pub fn init() -> (r: Cpu)
        ensures
            r == post_boot(),
    {
        Cpu {
            a: 0xFF,
            b: 0x00,
            c: 0x13,
            d: 0x00,
            e: 0xD8,
            h: 0x01,
            l: 0x4D,
            zero: true,
            subtract: false,
            half_carry: false,
            carry: false,
            sp: 0xFFFE,
            pc: 0x0100,
            ime: false,
            halted: false,
        }
    }

    pub fn is_set(&self, f: Flag) -> (r: bool)
        ensures
            r == flag_of(*self, f),
    {
        match f {
            Flag::Z => self.zero,
            Flag::N => self.subtract,
            Flag::H => self.half_carry,
            Flag::C => self.carry,
        }
    }

    pub fn set_flag(&mut self, f: Flag, set: bool)
        ensures
            *final(self) == with_flag(*old(self), f, set),
    {
        match f {
            Flag::Z => self.zero = set,
            Flag::N => self.subtract = set,
            Flag::H => self.half_carry = set,
            Flag::C => self.carry = set,
        }
    }

    /// The flag register as a byte.
    pub fn flags(&self) -> (r: u8)
        ensures
            r == flags_byte(*self),
    {
        (if self.zero { 128u8 } else { 0 }) + (if self.subtract { 64u8 } else { 0 }) + (
        if self.half_carry {
            32u8
        } else {
            0
        }) + (if self.carry { 16u8 } else { 0 })
    }

    fn set_flags_byte(&mut self, f: u8)
        ensures
            *final(self) == with_flags_byte(*old(self), f),
    {
        self.zero = f / 128 == 1;
        self.subtract = (f / 64) % 2 == 1;
        self.half_carry = (f / 32) % 2 == 1;
        self.carry = (f / 16) % 2 == 1;
    }

    fn get_hl(&self) -> (r: u16)
        ensures
            r == hl(*self),
    {
        self.l as u16 + (self.h as u16) * 256
    }

    fn set_hl(&mut self, v: u16)
        ensures
            *final(self) == with_hl(*old(self), v),
    {
        self.h = (v / 256) as u8;
        self.l = (v % 256) as u8;
    }

    fn condition(&self, opcode: u8) -> (r: bool)
        ensures
            r == condition(*self, opcode),
    {
        match (opcode / 8) % 4 {
            0 => !self.zero,
            1 => self.zero,
            2 => !self.carry,
            _ => self.carry,
        }
    }

    fn fetch(&mut self, mmu: &MemoryManagementUnit) -> (r: Result<u8, Fault>)
        requires
            mmu@.inv(),
        ensures
            match fetch8(*old(self), mmu@) {
                Ok((c1, b)) => r == Ok::<u8, Fault>(b) && *final(self) == c1,
                Err(f) => r == Err::<u8, Fault>(f) && *final(self) == *old(self),
            },
    {
        let b = match read_bus(mmu, self.pc) {
            Ok(b) => b,
            Err(f) => {
                return Err(f);
            },
        };
        self.pc = offset16(self.pc, 1);
        Ok(b)
    }

    fn fetch16(&mut self, mmu: &MemoryManagementUnit) -> (r: Result<u16, Fault>)
        requires
            mmu@.inv(),
        ensures
            match fetch16(*old(self), mmu@) {
                Ok((c1, w)) => r == Ok::<u16, Fault>(w) && *final(self) == c1,
                Err(f) => r == Err::<u16, Fault>(f),
            },
    {
        let lo = match self.fetch(mmu) {
            Ok(b) => b,
            Err(f) => {
                return Err(f);
            },
        };
        let hi = match self.fetch(mmu) {
            Ok(b) => b,
            Err(f) => {
                return Err(f);
            },
        };
        Ok(lo as u16 + (hi as u16) * 256)
    }

    /// The operand that the low three bits of `opcode` select: B, C, D, E, H, L,
    /// the byte at HL, A.
    fn fetch_reg_operand(&self, mmu: &MemoryManagementUnit, opcode: u8) -> (r: Result<u8, Fault>)
        requires
            mmu@.inv(),
        ensures
            r == operand_of(*self, mmu@, opcode % 8),
    {
        match opcode % 8 {
            0 => Ok(self.b),
            1 => Ok(self.c),
            2 => Ok(self.d),
            3 => Ok(self.e),
            4 => Ok(self.h),
            5 => Ok(self.l),
            6 => read_bus(mmu, self.get_hl()),
            _ => Ok(self.a),
        }
    }

    /// Stores `result` where the low three bits of `opcode` point.
    fn store_result_in_register(&mut self, mmu: &mut MemoryManagementUnit, opcode: u8, result: u8)
        requires
            old(mmu)@.inv(),
            opcode % 8 == 6 ==> bus_mapped(hl(*old(self))),
        ensures
            final(mmu)@.inv(),
            (*final(self), final(mmu)@) == store(*old(self), old(mmu)@, opcode % 8, result),
    {
        match opcode % 8 {
            0 => self.b = result,
            1 => self.c = result,
            2 => self.d = result,
            3 => self.e = result,
            4 => self.h = result,
            5 => self.l = result,
            6 => {
                let addr = self.get_hl();
                mmu.write8(addr, result);
            },
            _ => self.a = result,
        }
    }

    /// Decrements SP, then writes `data` there.
    fn push(&mut self, mmu: &mut MemoryManagementUnit, data: u8)
        requires
            old(mmu)@.inv(),
            bus_mapped(add16(old(self).sp, -1)),
        ensures
            final(mmu)@.inv(),
            *final(self) == (Cpu { sp: add16(old(self).sp, -1), ..*old(self) }),
            final(mmu)@ == old(mmu)@.write(add16(old(self).sp, -1), data),
    {
        self.sp = offset16(self.sp, -1);
        mmu.write8(self.sp, data);
    }

    /// Reads the byte at SP, then increments SP.
    fn pop(&mut self, mmu: &MemoryManagementUnit) -> (r: Result<u8, Fault>)
        requires
            mmu@.inv(),
        ensures
            match load(mmu@, old(self).sp) {
                Ok(b) => r == Ok::<u8, Fault>(b) && *final(self) == (Cpu {
                    sp: add16(old(self).sp, 1),
                    ..*old(self)
                }),
                Err(f) => r == Err::<u8, Fault>(f),
            },
    {
        let data = match read_bus(mmu, self.sp) {
            Ok(b) => b,
            Err(f) => {
                return Err(f);
            },
        };
        self.sp = offset16(self.sp, 1);
        Ok(data)
    }

    fn push_word(&mut self, mmu: &mut MemoryManagementUnit, v: u16) -> (r: Result<(), Fault>)
        requires
            old(mmu)@.inv(),
        ensures
            final(mmu)@.inv(),
            match push16(*old(self), old(mmu)@, v) {
                Ok((c1, m1)) => r is Ok && *final(self) == c1 && final(mmu)@ == m1,
                Err(f) => r == Err::<(), Fault>(f) && final(mmu)@ == old(mmu)@,
            },
    {
        let s1 = offset16(self.sp, -1);
        let s2 = offset16(self.sp, -2);
        if !MemoryManagementUnit::is_mapped(s1) {
            return Err(Fault::UnmappedAddress(s1));
        }
        if !MemoryManagementUnit::is_mapped(s2) {
            return Err(Fault::UnmappedAddress(s2));
        }
        self.push(mmu, (v / 256) as u8);
        self.push(mmu, (v % 256) as u8);
        Ok(())
    }

    fn pop_word(&mut self, mmu: &MemoryManagementUnit) -> (r: Result<u16, Fault>)
        requires
            mmu@.inv(),
        ensures
            match pop16(*old(self), mmu@) {
                Ok((c1, w)) => r == Ok::<u16, Fault>(w) && *final(self) == c1,
                Err(f) => r == Err::<u16, Fault>(f),
            },
    {
        let lo = match self.pop(mmu) {
            Ok(b) => b,
            Err(f) => {
                return Err(f);
            },
        };
        let hi = match self.pop(mmu) {
            Ok(b) => b,
            Err(f) => {
                return Err(f);
            },
        };
        Ok(lo as u16 + (hi as u16) * 256)
    }

    /// Executes one instruction and returns its cost in clock cycles. On a fault
    /// nothing is changed.
    pub fn emulate_operation(&mut self, mmu: &mut MemoryManagementUnit) -> (r: Result<u32, Fault>)
        requires
            old(mmu)@.inv(),
            !decodes_unimplemented(*old(self), old(mmu)@),
        ensures
            final(mmu)@.inv(),
            match step(*old(self), old(mmu)@) {
                Ok((c, m, cycles)) => r == Ok::<u32, Fault>(cycles) && *final(self) == c
                    && final(mmu)@ == m,
                Err(f) => r == Err::<u32, Fault>(f) && *final(self) == *old(self) && final(mmu)@
                    == old(mmu)@,
            },
    {
        let saved = *self;
        let pending = mmu.read8(0xFFFF) & mmu.read8(0xFF0F) & 0x1F;
        if self.ime && pending != 0 {
            let result = self.dispatch_interrupt(mmu, pending);
            if result.is_err() {
                *self = saved;
            }
            return result;
        }
        if self.halted {
            if pending == 0 {
                return Ok(4);
            }
            self.halted = false;
        }
        let opcode = match self.fetch(mmu) {
            Ok(op) => op,
            Err(f) => {
                *self = saved;
                return Err(f);
            },
        };
        let result = self.execute_opcode(mmu, opcode);
        match result {
            Ok(cycles) => Ok(cycles),
            Err(f) => {
                *self = saved;
                Err(f)
            },
        }
    }

    /// Executes `opcode`, which has just been fetched.
    fn execute_opcode(&mut self, mmu: &mut MemoryManagementUnit, opcode: u8) -> (r: Result<u32, Fault>)
        requires
            old(mmu)@.inv(),
        ensures
            final(mmu)@.inv(),
            matches_outcome(execute(opcode, *old(self), old(mmu)@), r, *final(self), final(mmu)@, old(mmu)@),
    {
        if opcode == 0x00 {
            Ok(4)
        } else if is_jump_opcode(opcode) {
            self.emulate_jump_operation(mmu, opcode)
        } else if is_load8_opcode(opcode) {
            self.emulate_8bit_load_operation(mmu, opcode)
        } else if is_load16_opcode(opcode) {
            self.emulate_16bit_load_operation(mmu, opcode)
        } else if is_alu_opcode(opcode) {
            self.emulate_8bit_arithmetic_or_logic(mmu, opcode)
        } else if opcode == 0x07 || opcode == 0x0F || opcode == 0x17 || opcode == 0x1F || opcode
            == 0xCB {
            self.emulate_8bit_rotation_or_shift(mmu, opcode)
        } else if opcode == 0xF3 || opcode == 0xFB {
            self.ime = opcode == 0xFB;
            Ok(4)
        } else if opcode == 0x76 {
            self.halted = true;
            Ok(4)
        } else {
            Err(Fault::UnimplementedOpcode(opcode))
        }
    }

    /// The opcode the next step would decode, if this core does not execute it.
    /// A caller tests this before `emulate_operation` and stops on `Some`.
    pub fn unimplemented_opcode(&self, mmu: &MemoryManagementUnit) -> (r: Option<u8>)
        requires
            mmu@.inv(),
        ensures
            r is Some <==> decodes_unimplemented(*self, mmu@),
            r matches Some(op) ==> op == mmu@.read(self.pc),
    {
        reveal(opcode_implemented);
        let pending = mmu.read8(0xFFFF) & mmu.read8(0xFF0F) & 0x1F;
        if (self.ime && pending != 0) || (self.halted && pending == 0)
            || !MemoryManagementUnit::is_mapped(self.pc) {
            return None;
        }
        let op = mmu.read8(self.pc);
        if op == 0x00 || op == 0x76 || op == 0xF3 || op == 0xFB || is_jump_opcode(op)
            || is_load8_opcode(op) || is_load16_opcode(op) || is_alu_opcode(op) || op == 0x07 || op
            == 0x0F || op == 0x17 || op == 0x1F || op == 0xCB {
            None
        } else {
            Some(op)
        }
    }

    fn dispatch_interrupt(&mut self, mmu: &mut MemoryManagementUnit, pending: u8) -> (r: Result<u32, Fault>)
        requires
            old(mmu)@.inv(),
            pending == pending_interrupts(old(mmu)@),
        ensures
            final(mmu)@.inv(),
            matches_outcome(service_interrupt(*old(self), old(mmu)@), r, *final(self), final(mmu)@, old(mmu)@),
    {
        let k: u8 = if pending & 0x01 != 0 {
            0
        } else if pending & 0x02 != 0 {
            1
        } else if pending & 0x04 != 0 {
            2
        } else if pending & 0x08 != 0 {
            3
        } else {
            4
        };
        let requested = mmu.read8(0xFF0F);
        let return_address = self.pc;
        match self.push_word(mmu, return_address) {
            Ok(()) => {},
            Err(f) => {
                return Err(f);
            },
        }
        mmu.write8(0xFF0F, requested & !bit_value(k));
        self.ime = false;
        self.halted = false;
        self.pc = 0x40 + 8 * k as u16;
        Ok(20)
    }

    fn emulate_jump_operation(&mut self, mmu: &mut MemoryManagementUnit, opcode: u8) -> (r: Result<
        u32,
        Fault,
    >)
        requires
            old(mmu)@.inv(),
            is_jump_op(opcode),
        ensures
            final(mmu)@.inv(),
            matches_outcome(jump_spec(opcode, *old(self), old(mmu)@), r, *final(self), final(mmu)@, old(mmu)@),
    {
        reveal(jump_spec);
        if opcode == 0xC3 || opcode == 0xC2 || opcode == 0xCA || opcode == 0xD2 || opcode == 0xDA {
            let taken = opcode == 0xC3 || self.condition(opcode);
            let target = match self.fetch16(mmu) {
                Ok(t) => t,
                Err(f) => {
                    return Err(f);
                },
            };
            if taken {
                self.pc = target;
                Ok(16)
            } else {
                Ok(12)
            }
        } else if opcode == 0xE9 {
            self.pc = self.get_hl();
            Ok(4)
        } else if opcode == 0x18 || opcode == 0x20 || opcode == 0x28 || opcode == 0x30 || opcode
            == 0x38 {
            self.op_jr(mmu, opcode)
        } else if opcode == 0xCD || opcode == 0xC4 || opcode == 0xCC || opcode == 0xD4 || opcode
            == 0xDC {
            let taken = opcode == 0xCD || self.condition(opcode);
            let target = match self.fetch16(mmu) {
                Ok(t) => t,
                Err(f) => {
                    return Err(f);
                },
            };
            if taken {
                let return_address = self.pc;
                match self.push_word(mmu, return_address) {
                    Ok(()) => {},
                    Err(f) => {
                        return Err(f);
                    },
                }
                self.pc = target;
                Ok(24)
            } else {
                Ok(12)
            }
        } else if opcode == 0xC9 || opcode == 0xD9 || opcode == 0xC0 || opcode == 0xC8 || opcode
            == 0xD0 || opcode == 0xD8 {
            if opcode == 0xC9 || opcode == 0xD9 || self.condition(opcode) {
                let target = match self.pop_word(mmu) {
                    Ok(t) => t,
                    Err(f) => {
                        return Err(f);
                    },
                };
                self.pc = target;
                if opcode == 0xD9 {
                    self.ime = true;
                }
                Ok(if opcode == 0xC9 || opcode == 0xD9 { 16 } else { 20 })
            } else {
                Ok(8)
            }
        } else {
            let return_address = self.pc;
            match self.push_word(mmu, return_address) {
                Ok(()) => {},
                Err(f) => {
                    return Err(f);
                },
            }
            self.pc = (opcode - 0xC7) as u16;
            Ok(16)
        }
    }

    /// Relative jump: the offset byte is signed and counts from the address after it.
    pub fn op_jr(&mut self, mmu: &MemoryManagementUnit, opcode: u8) -> (r: Result<u32, Fault>)
        requires
            mmu@.inv(),
            opcode == 0x18 || opcode == 0x20 || opcode == 0x28 || opcode == 0x30 || opcode == 0x38,
        ensures
            matches_outcome(jump_spec(opcode, *old(self), mmu@), r, *final(self), mmu@, mmu@),
    {
        reveal(jump_spec);
        let taken = opcode == 0x18 || self.condition(opcode);
        let n = match self.fetch(mmu) {
            Ok(n) => n,
            Err(f) => {
                return Err(f);
            },
        };
        if taken {
            self.pc = offset16(self.pc, signed_offset(n));
            Ok(12)
        } else {
            Ok(8)
        }
    }


    fn store_a_at(&mut self, mmu: &mut MemoryManagementUnit, addr: u16, cycles: u32) -> (r: Result<u32, Fault>)
        requires
            old(mmu)@.inv(),
        ensures
            final(mmu)@.inv(),
            matches_outcome(store_a(*old(self), old(mmu)@, addr, cycles), r, *final(self), final(mmu)@, old(mmu)@),
    {
        if !MemoryManagementUnit::is_mapped(addr) {
            return Err(Fault::UnmappedAddress(addr));
        }
        mmu.write8(addr, self.a);
        Ok(cycles)
    }

    fn load_a_from(&mut self, mmu: &MemoryManagementUnit, addr: u16, cycles: u32) -> (r: Result<u32, Fault>)
        requires
            mmu@.inv(),
        ensures
            matches_outcome(load_a(*old(self), mmu@, addr, cycles), r, *final(self), mmu@, mmu@),
    {
        match read_bus(mmu, addr) {
            Ok(v) => {
                self.a = v;
                Ok(cycles)
            },
            Err(f) => Err(f),
        }
    }

    /// LD r,r' and LD r,d8, where either side may be the byte at HL.
    fn op_ld_register(&mut self, mmu: &mut MemoryManagementUnit, opcode: u8) -> (r: Result<u32, Fault>)
        requires
            old(mmu)@.inv(),
            (0x40 <= opcode && opcode <= 0x7F && opcode != 0x76) || (opcode < 0x40 && opcode % 8 == 6),
        ensures
            final(mmu)@.inv(),
            matches_outcome(load8_spec(opcode, *old(self), old(mmu)@), r, *final(self), final(mmu)@, old(mmu)@),
    {
        reveal(load8_spec);
        if 0x40 <= opcode && opcode <= 0x7F && opcode != 0x76 {
            let dst = (opcode / 8) % 8;
            let src = opcode % 8;
            let v = match self.fetch_reg_operand(mmu, src) {
                Ok(v) => v,
                Err(f) => {
                    return Err(f);
                },
            };
            if dst == 6 && !MemoryManagementUnit::is_mapped(self.get_hl()) {
                return Err(Fault::UnmappedAddress(self.get_hl()));
            }
            self.store_result_in_register(mmu, dst, v);
            Ok(if dst == 6 || src == 6 { 8 } else { 4 })
        } else {
            let dst = opcode / 8;
            let n = match self.fetch(mmu) {
                Ok(n) => n,
                Err(f) => {
                    return Err(f);
                },
            };
            if dst == 6 && !MemoryManagementUnit::is_mapped(self.get_hl()) {
                return Err(Fault::UnmappedAddress(self.get_hl()));
            }
            self.store_result_in_register(mmu, dst, n);
            Ok(if dst == 6 { 12 } else { 8 })
        }
    }

    fn emulate_8bit_load_operation(&mut self, mmu: &mut MemoryManagementUnit, opcode: u8) -> (r: Result<u32, Fault>)
        requires
            old(mmu)@.inv(),
            is_load8_op(opcode),
        ensures
            final(mmu)@.inv(),
            matches_outcome(load8_spec(opcode, *old(self), old(mmu)@), r, *final(self), final(mmu)@, old(mmu)@),
    {
        reveal(load8_spec);
        if (0x40 <= opcode && opcode <= 0x7F && opcode != 0x76) || (opcode < 0x40 && opcode % 8 == 6) {
            self.op_ld_register(mmu, opcode)
        } else if opcode == 0x02 {
            let addr = self.c as u16 + (self.b as u16) * 256;
            self.store_a_at(mmu, addr, 8)
        } else if opcode == 0x12 {
            let addr = self.e as u16 + (self.d as u16) * 256;
            self.store_a_at(mmu, addr, 8)
        } else if opcode == 0x0A {
            let addr = self.c as u16 + (self.b as u16) * 256;
            self.load_a_from(mmu, addr, 8)
        } else if opcode == 0x1A {
            let addr = self.e as u16 + (self.d as u16) * 256;
            self.load_a_from(mmu, addr, 8)
        } else if opcode == 0x22 || opcode == 0x32 || opcode == 0x2A || opcode == 0x3A {
            let addr = self.get_hl();
            let step: i32 = if opcode == 0x22 || opcode == 0x2A { 1 } else { -1 };
            self.set_hl(offset16(addr, step));
            if opcode == 0x22 || opcode == 0x32 {
                self.store_a_at(mmu, addr, 8)
            } else {
                self.load_a_from(mmu, addr, 8)
            }
        } else if opcode == 0xE0 || opcode == 0xF0 {
            let n = match self.fetch(mmu) {
                Ok(n) => n,
                Err(f) => {
                    return Err(f);
                },
            };
            let addr = offset16(0xFF00, n as i32);
            if opcode == 0xE0 {
                self.store_a_at(mmu, addr, 12)
            } else {
                self.load_a_from(mmu, addr, 12)
            }
        } else if opcode == 0xE2 {
            let addr = offset16(0xFF00, self.c as i32);
            self.store_a_at(mmu, addr, 8)
        } else if opcode == 0xF2 {
            let addr = offset16(0xFF00, self.c as i32);
            self.load_a_from(mmu, addr, 8)
        } else {
            let addr = match self.fetch16(mmu) {
                Ok(a) => a,
                Err(f) => {
                    return Err(f);
                },
            };
            if opcode == 0xEA {
                self.store_a_at(mmu, addr, 16)
            } else {
                self.load_a_from(mmu, addr, 16)
            }
        }
    }

    /// The pair that bits 5..4 of `opcode` name: BC, DE, HL, SP.
    fn pair(&self, opcode: u8) -> (r: u16)
        ensures
            r == pair_of(*self, opcode),
    {
        match (opcode / 16) % 4 {
            0 => self.c as u16 + (self.b as u16) * 256,
            1 => self.e as u16 + (self.d as u16) * 256,
            2 => self.get_hl(),
            _ => self.sp,
        }
    }

    fn set_pair(&mut self, opcode: u8, v: u16)
        ensures
            *final(self) == with_pair(*old(self), opcode, v),
    {
        match (opcode / 16) % 4 {
            0 => {
                self.b = (v / 256) as u8;
                self.c = (v % 256) as u8;
            },
            1 => {
                self.d = (v / 256) as u8;
                self.e = (v % 256) as u8;
            },
            2 => self.set_hl(v),
            _ => self.sp = v,
        }
    }

    fn emulate_16bit_load_operation(&mut self, mmu: &mut MemoryManagementUnit, opcode: u8) -> (r: Result<u32, Fault>)
        requires
            old(mmu)@.inv(),
            is_load16_op(opcode),
        ensures
            final(mmu)@.inv(),
            matches_outcome(load16_spec(opcode, *old(self), old(mmu)@), r, *final(self), final(mmu)@, old(mmu)@),
    {
        reveal(load16_spec);
        if opcode < 0x40 && opcode % 16 == 1 {
            let v = match self.fetch16(mmu) {
                Ok(v) => v,
                Err(f) => {
                    return Err(f);
                },
            };
            self.set_pair(opcode, v);
            Ok(12)
        } else if opcode < 0x40 && opcode % 16 == 3 {
            let v = offset16(self.pair(opcode), 1);
            self.set_pair(opcode, v);
            Ok(8)
        } else if opcode < 0x40 && opcode % 16 == 0xB {
            let v = offset16(self.pair(opcode), -1);
            self.set_pair(opcode, v);
            Ok(8)
        } else if opcode < 0x40 && opcode % 16 == 0x9 {
            let x = self.get_hl();
            let y = self.pair(opcode);
            let half_carry = x % 4096 + y % 4096 > 4095;
            let carry = x as u32 + y as u32 > 65535;
            self.set_hl(offset16(x, y as i32));
            self.subtract = false;
            self.half_carry = half_carry;
            self.carry = carry;
            Ok(8)
        } else if opcode == 0x08 {
            let sp = self.sp;
            let addr = match self.fetch16(mmu) {
                Ok(a) => a,
                Err(f) => {
                    return Err(f);
                },
            };
            let next = offset16(addr, 1);
            if !MemoryManagementUnit::is_mapped(addr) {
                return Err(Fault::UnmappedAddress(addr));
            }
            if !MemoryManagementUnit::is_mapped(next) {
                return Err(Fault::UnmappedAddress(next));
            }
            mmu.write8(addr, (sp % 256) as u8);
            mmu.write8(next, (sp / 256) as u8);
            Ok(20)
        } else if opcode >= 0xC0 && opcode % 16 == 1 {
            let v = match self.pop_word(mmu) {
                Ok(v) => v,
                Err(f) => {
                    return Err(f);
                },
            };
            if (opcode / 16) % 4 == 3 {
                self.a = (v / 256) as u8;
                self.set_flags_byte((v % 256) as u8);
            } else {
                self.set_pair(opcode, v);
            }
            Ok(12)
        } else if opcode >= 0xC0 && opcode % 16 == 5 {
            let v = if (opcode / 16) % 4 == 3 {
                self.flags() as u16 + (self.a as u16) * 256
            } else {
                self.pair(opcode)
            };
            match self.push_word(mmu, v) {
                Ok(()) => Ok(16),
                Err(f) => Err(f),
            }
        } else if opcode == 0xE8 {
            let sp = self.sp;
            let n = match self.fetch(mmu) {
                Ok(n) => n,
                Err(f) => {
                    return Err(f);
                },
            };
            let half_carry = sp % 16 + n as u16 % 16 > 15;
            let carry = sp % 256 + n as u16 > 255;
            self.sp = offset16(sp, signed_offset(n));
            self.zero = false;
            self.subtract = false;
            self.half_carry = half_carry;
            self.carry = carry;
            Ok(16)
        } else if opcode == 0xF8 {
            let sp = self.sp;
            let n = match self.fetch(mmu) {
                Ok(n) => n,
                Err(f) => {
                    return Err(f);
                },
            };
            let half_carry = sp % 16 + n as u16 % 16 > 15;
            let carry = sp % 256 + n as u16 > 255;
            self.set_hl(offset16(sp, signed_offset(n)));
            self.zero = false;
            self.subtract = false;
            self.half_carry = half_carry;
            self.carry = carry;
            Ok(12)
        } else {
            self.sp = self.get_hl();
            Ok(8)
        }
    }

    /// One of ADD, ADC, SUB, SBC, AND, XOR, OR, CP (`kind` 0 to 7) of A and `operand`.
    fn op_alu(&mut self, kind: u8, operand: u8)
        requires
            kind < 8,
        ensures
            *final(self) == alu(*old(self), kind, operand),
    {
        let a = self.a;
        let cin: u16 = if self.carry { 1 } else { 0 };
        if kind == 7 {
            self.op_cp(operand);
            return;
        }
        let (result, subtract, half_carry, carry) = match kind {
            0 => (((a as u16 + operand as u16) % 256) as u8, false, a % 16 + operand % 16 > 15,
                a as u16 + operand as u16 > 255),
            1 => (((a as u16 + operand as u16 + cin) % 256) as u8, false, (a % 16) as u16 + (
            operand % 16) as u16 + cin > 15, a as u16 + operand as u16 + cin > 255),
            2 => (((a as u16 + 256 - operand as u16) % 256) as u8, true, a % 16 < operand % 16, a
                < operand),
            3 => (((a as u16 + 512 - operand as u16 - cin) % 256) as u8, true, ((a % 16) as u16) < (
            operand % 16) as u16 + cin, (a as u16) < operand as u16 + cin),
            4 => (a & operand, false, true, false),
            5 => (a ^ operand, false, false, false),
            _ => (a | operand, false, false, false),
        };
        self.a = result;
        self.zero = result == 0;
        self.subtract = subtract;
        self.half_carry = half_carry;
        self.carry = carry;
    }

    fn op_daa(&mut self)
        ensures
            *final(self) == daa(*old(self)),
    {
        let a = self.a as u16;
        let result = if !self.subtract {
            let fix_high = self.carry || a > 0x99;
            let a1 = if fix_high { a + 0x60 } else { a };
            let a2 = if self.half_carry || a % 16 > 9 { a1 + 6 } else { a1 };
            self.carry = fix_high;
            (a2 % 256) as u8
        } else {
            let a1 = if self.carry { a + 256 - 0x60 } else { a + 256 };
            let a2 = if self.half_carry { a1 - 6 } else { a1 };
            (a2 % 256) as u8
        };
        self.a = result;
        self.zero = result == 0;
        self.half_carry = false;
    }

    /// Compares `operand` with A: the flags of the subtraction, A unchanged.
    pub fn op_cp(&mut self, operand: u8)
        ensures
            *final(self) == compare(*old(self), operand),
    {
        let a = self.a;
        self.carry = a < operand;
        self.subtract = true;
        self.half_carry = a % 16 < operand % 16;
        self.zero = a == operand;
    }

    fn inc_or_dec_value(&mut self, operand: u8, is_dec: bool) -> (r: u8)
        ensures
            (*final(self), r) == inc_dec(*old(self), operand, is_dec),
    {
        if is_dec {
            self.half_carry = operand % 16 == 0;
            self.subtract = true;
            let result = ((operand as u16 + 255) % 256) as u8;
            self.zero = result == 0;
            result
        } else {
            self.half_carry = operand % 16 == 15;
            self.subtract = false;
            let result = ((operand as u16 + 1) % 256) as u8;
            self.zero = result == 0;
            result
        }
    }

    /// INC or DEC (odd opcodes) of the operand that bits 5..3 of `opcode` name.
    pub fn op_inc_or_dec(&mut self, mmu: &mut MemoryManagementUnit, opcode: u8) -> (r: Result<u32, Fault>)
        requires
            old(mmu)@.inv(),
            opcode < 0x40,
            opcode % 8 == 4 || opcode % 8 == 5,
        ensures
            final(mmu)@.inv(),
            matches_outcome(inc_dec_spec(opcode, *old(self), old(mmu)@), r, *final(self), final(mmu)@, old(mmu)@),
    {
        let sel = opcode / 8;
        let operand = match self.fetch_reg_operand(mmu, sel) {
            Ok(x) => x,
            Err(f) => {
                return Err(f);
            },
        };
        let result = self.inc_or_dec_value(operand, opcode % 8 == 5);
        self.store_result_in_register(mmu, sel, result);
        Ok(if sel == 6 { 12 } else { 4 })
    }

    fn emulate_8bit_arithmetic_or_logic(&mut self, mmu: &mut MemoryManagementUnit, opcode: u8) -> (r: Result<u32, Fault>)
        requires
            old(mmu)@.inv(),
            is_alu_op(opcode),
        ensures
            final(mmu)@.inv(),
            matches_outcome(alu_spec(opcode, *old(self), old(mmu)@), r, *final(self), final(mmu)@, old(mmu)@),
    {
        reveal(alu_spec);
        if 0x80 <= opcode && opcode <= 0xBF {
            let operand = match self.fetch_reg_operand(mmu, opcode) {
                Ok(x) => x,
                Err(f) => {
                    return Err(f);
                },
            };
            self.op_alu((opcode - 0x80) / 8, operand);
            Ok(if opcode % 8 == 6 { 8 } else { 4 })
        } else if opcode >= 0xC0 && opcode % 8 == 6 {
            let operand = match self.fetch(mmu) {
                Ok(x) => x,
                Err(f) => {
                    return Err(f);
                },
            };
            self.op_alu((opcode - 0xC6) / 8, operand);
            Ok(8)
        } else if opcode < 0x40 && (opcode % 8 == 4 || opcode % 8 == 5) {
            self.op_inc_or_dec(mmu, opcode)
        } else if opcode == 0x27 {
            self.op_daa();
            Ok(4)
        } else if opcode == 0x2F {
            self.a = 255 - self.a;
            self.subtract = true;
            self.half_carry = true;
            Ok(4)
        } else if opcode == 0x37 {
            self.subtract = false;
            self.half_carry = false;
            self.carry = true;
            Ok(4)
        } else {
            self.subtract = false;
            self.half_carry = false;
            self.carry = !self.carry;
            Ok(4)
        }
    }

    /// Rotate left; bit 7 goes to carry and to bit 0.
    fn op_rlc(&mut self, operand: u8, is_cb_prefixed: bool) -> (r: u8)
        ensures
            r == rlc(operand),
            *final(self) == with_flags(*old(self), is_cb_prefixed && r == 0, false, false, operand >= 128),
    {
        let new_val = ((operand as u16 * 2) % 256 + operand as u16 / 128) as u8;
        self.zero = is_cb_prefixed && new_val == 0;
        self.subtract = false;
        self.half_carry = false;
        self.carry = operand >= 128;
        new_val
    }

    /// Rotate right; bit 0 goes to carry and to bit 7.
    fn op_rrc(&mut self, operand: u8, is_cb_prefixed: bool) -> (r: u8)
        ensures
            r == rrc(operand),
            *final(self) == with_flags(*old(self), is_cb_prefixed && r == 0, false, false, operand % 2 == 1),
    {
        let new_val = (operand / 2 + (operand % 2) * 128) as u8;
        self.zero = is_cb_prefixed && new_val == 0;
        self.subtract = false;
        self.half_carry = false;
        self.carry = operand % 2 == 1;
        new_val
    }

    /// Rotate left through carry.
    fn op_rl(&mut self, operand: u8, is_cb_prefixed: bool) -> (r: u8)
        ensures
            r == rl(operand, old(self).carry),
            *final(self) == with_flags(*old(self), is_cb_prefixed && r == 0, false, false, operand >= 128),
    {
        let cin: u16 = if self.carry { 1 } else { 0 };
        let new_val = ((operand as u16 * 2) % 256 + cin) as u8;
        self.zero = is_cb_prefixed && new_val == 0;
        self.subtract = false;
        self.half_carry = false;
        self.carry = operand >= 128;
        new_val
    }

    /// Rotate right through carry.
    fn op_rr(&mut self, operand: u8, is_cb_prefixed: bool) -> (r: u8)
        ensures
            r == rr(operand, old(self).carry),
            *final(self) == with_flags(*old(self), is_cb_prefixed && r == 0, false, false, operand % 2 == 1),
    {
        let cin: u16 = if self.carry { 128 } else { 0 };
        let new_val = (operand as u16 / 2 + cin) as u8;
        self.zero = is_cb_prefixed && new_val == 0;
        self.subtract = false;
        self.half_carry = false;
        self.carry = operand % 2 == 1;
        new_val
    }

    /// Shift left; bit 7 goes to carry.
    fn op_sla(&mut self, operand: u8) -> (r: u8)
        ensures
            r == sla(operand),
            *final(self) == with_flags(*old(self), r == 0, false, false, operand >= 128),
    {
        let result = ((operand as u16 * 2) % 256) as u8;
        self.zero = result == 0;
        self.subtract = false;
        self.half_carry = false;
        self.carry = operand >= 128;
        result
    }

    /// Shift right keeping bit 7; bit 0 goes to carry.
    fn op_sra(&mut self, operand: u8) -> (r: u8)
        ensures
            r == sra(operand),
            *final(self) == with_flags(*old(self), r == 0, false, false, operand % 2 == 1),
    {
        let result = (operand / 2 + (operand / 128) * 128) as u8;
        self.zero = result == 0;
        self.subtract = false;
        self.half_carry = false;
        self.carry = operand % 2 == 1;
        result
    }

    /// Shift right, bit 7 becomes 0; bit 0 goes to carry.
    fn op_srl(&mut self, operand: u8) -> (r: u8)
        ensures
            r == srl(operand),
            *final(self) == with_flags(*old(self), r == 0, false, false, operand % 2 == 1),
    {
        let result = operand / 2;
        self.zero = result == 0;
        self.subtract = false;
        self.half_carry = false;
        self.carry = operand % 2 == 1;
        result
    }

    /// Exchange the high and low nibbles.
    fn op_swap(&mut self, operand: u8) -> (r: u8)
        ensures
            r == swap(operand),
            *final(self) == with_flags(*old(self), r == 0, false, false, false),
    {
        let result = (operand % 16) * 16 + operand / 16;
        self.zero = result == 0;
        self.subtract = false;
        self.half_carry = false;
        self.carry = false;
        result
    }

    /// Test bit `index`: Z is set iff the bit is clear.
    fn op_bit(&mut self, operand: u8, index: u8) -> (r: u8)
        requires
            index < 8,
        ensures
            r == operand,
            *final(self) == (Cpu {
                zero: !bit_is_set(operand, index),
                subtract: false,
                half_carry: true,
                ..*old(self)
            }),
    {
        self.zero = operand & bit_value(index) == 0;
        self.subtract = false;
        self.half_carry = true;
        operand
    }

    /// Clear bit `index`.
    fn op_res(&self, operand: u8, index: u8) -> (r: u8)
        requires
            index < 8,
        ensures
            r == operand & !bit_mask(index),
    {
        operand & !bit_value(index)
    }

    /// Set bit `index`.
    fn op_set(&self, operand: u8, index: u8) -> (r: u8)
        requires
            index < 8,
        ensures
            r == operand | bit_mask(index),
    {
        operand | bit_value(index)
    }

    fn emulate_8bit_rotation_or_shift(&mut self, mmu: &mut MemoryManagementUnit, opcode: u8) -> (r: Result<u32, Fault>)
        requires
            old(mmu)@.inv(),
            is_rotate_op(opcode),
        ensures
            final(mmu)@.inv(),
            matches_outcome(rotate_spec(opcode, *old(self), old(mmu)@), r, *final(self), final(mmu)@, old(mmu)@),
    {
        reveal(rotate_spec);
        let a = self.a;
        if opcode == 0x07 {
            self.a = self.op_rlc(a, false);
            Ok(4)
        } else if opcode == 0x17 {
            self.a = self.op_rl(a, false);
            Ok(4)
        } else if opcode == 0x0F {
            self.a = self.op_rrc(a, false);
            Ok(4)
        } else if opcode == 0x1F {
            self.a = self.op_rr(a, false);
            Ok(4)
        } else {
            let cb_opcode = match self.fetch(mmu) {
                Ok(x) => x,
                Err(f) => {
                    return Err(f);
                },
            };
            let operand = match self.fetch_reg_operand(mmu, cb_opcode) {
                Ok(x) => x,
                Err(f) => {
                    return Err(f);
                },
            };
            let kind = cb_opcode / 8;
            let result = if kind == 0 {
                self.op_rlc(operand, true)
            } else if kind == 1 {
                self.op_rrc(operand, true)
            } else if kind == 2 {
                self.op_rl(operand, true)
            } else if kind == 3 {
                self.op_rr(operand, true)
            } else if kind == 4 {
                self.op_sla(operand)
            } else if kind == 5 {
                self.op_sra(operand)
            } else if kind == 6 {
                self.op_swap(operand)
            } else if kind == 7 {
                self.op_srl(operand)
            } else if kind < 16 {
                self.op_bit(operand, kind - 8)
            } else if kind < 24 {
                self.op_res(operand, kind - 16)
            } else {
                self.op_set(operand, kind - 24)
            };
            if !(0x40 <= cb_opcode && cb_opcode < 0x80) {
                self.store_result_in_register(mmu, cb_opcode, result);
            }
            Ok(if cb_opcode % 8 == 6 { 16 } else { 8 })
        }
    }
}

// ---------------------------------------------------------------------------
// Laws

/// INC of the register that a three-bit code names.
pub open spec fn inc_opcode(sel: u8) -> u8 {
    (sel * 8 + 4) as u8
}

/// DEC of the register that a three-bit code names.
pub open spec fn dec_opcode(sel: u8) -> u8 {
    (sel * 8 + 5) as u8
}

/// The registers after an instruction that succeeded.
pub open spec fn regs_after(o: Outcome) -> Cpu {
    o->Ok_0.0
}

proof fn lemma_inc8_dec8(x: u8)
    ensures
        dec8(inc8(x)) == x,
        inc8(dec8(x)) == x,
{
    if x == 255 {
        assert(inc8(x) == 0);
    } else {
        assert(inc8(x) == x + 1);
    }
    if x == 0 {
        assert(dec8(x) == 255);
    } else {
        assert(dec8(x) == x - 1);
    }
}

proof fn lemma_execute_inc_dec(op: u8, c: Cpu, m: BusView)
    requires
        op < 0x40,
        op % 8 == 4 || op % 8 == 5,
    ensures
        execute(op, c, m) == inc_dec_spec(op, c, m),
{
    reveal(alu_spec);
}

/// Incrementing a byte and then decrementing it, or the reverse, gives it back;
/// INC and DEC of a register succeed, leave the bus and the carry flag as they
/// were, and undo each other.
pub proof fn lemma_inc_dec_round_trip(x: u8, c: Cpu, m: BusView, sel: u8)
    requires
        sel < 8,
        sel != 6,
    ensures
        dec8(inc8(x)) == x,
        inc8(dec8(x)) == x,
        execute(inc_opcode(sel), c, m) is Ok,
        execute(dec_opcode(sel), c, m) is Ok,
        execute(inc_opcode(sel), c, m)->Ok_0.1 == m,
        execute(dec_opcode(sel), c, m)->Ok_0.1 == m,
        regs_after(execute(inc_opcode(sel), c, m)).carry == c.carry,
        regs_after(execute(dec_opcode(sel), c, m)).carry == c.carry,
        reg_of(regs_after(execute(dec_opcode(sel), regs_after(execute(inc_opcode(sel), c, m)), m)), sel)
            == reg_of(c, sel),
        reg_of(regs_after(execute(inc_opcode(sel), regs_after(execute(dec_opcode(sel), c, m)), m)), sel)
            == reg_of(c, sel),
{
    let i = inc_opcode(sel);
    let d = dec_opcode(sel);
    assert(i / 8 == sel && d / 8 == sel);
    lemma_execute_inc_dec(i, c, m);
    lemma_execute_inc_dec(d, c, m);
    let x0 = reg_of(c, sel);
    lemma_inc8_dec8(x0);
    lemma_inc8_dec8(x);
    let c1 = regs_after(execute(i, c, m));
    let c2 = regs_after(execute(d, c, m));
    assert(reg_of(c1, sel) == inc8(x0));
    assert(reg_of(c2, sel) == dec8(x0));
    lemma_execute_inc_dec(d, c1, m);
    lemma_execute_inc_dec(i, c2, m);
    assert(reg_of(regs_after(execute(d, c1, m)), sel) == dec8(inc8(x0)));
    assert(reg_of(regs_after(execute(i, c2, m)), sel) == inc8(dec8(x0)));
    assert(execute(inc_opcode(sel), c2, m) is Ok);
}

/// CP leaves A and the bus alone whatever it compares, and A compared with
/// itself sets Z and clears C.
pub proof fn lemma_compare(op: u8, c: Cpu, m: BusView)
    requires
        (0xB8 <= op && op <= 0xBF) || op == 0xFE,
    ensures
        execute(op, c, m) is Ok ==> regs_after(execute(op, c, m)).a == c.a && execute(op, c, m)->Ok_0.1 == m,
        compare(c, c.a).a == c.a,
        compare(c, c.a).zero,
        !compare(c, c.a).carry,
        execute(0xBF, c, m) is Ok,
        regs_after(execute(0xBF, c, m)).zero,
        !regs_after(execute(0xBF, c, m)).carry,
{
    reveal(alu_spec);
    reveal(jump_spec);
    reveal(load8_spec);
    reveal(load16_spec);
}

/// A relative jump with offset 0 lands on the instruction right after its
/// offset byte, taken or not; a taken one costs 12 cycles, a conditional one
/// not taken 8.
pub proof fn lemma_relative_jump_zero(op: u8, c: Cpu, m: BusView)
    requires
        op == 0x18 || op == 0x20 || op == 0x28 || op == 0x30 || op == 0x38,
        bus_mapped(c.pc),
        m.read(c.pc) == 0,
    ensures
        execute(op, c, m) is Ok,
        regs_after(execute(op, c, m)).pc == add16(c.pc, 1),
        execute(op, c, m)->Ok_0.1 == m,
        execute(op, c, m)->Ok_0.2 == if op == 0x18 || condition(c, op) { 12u32 } else { 8u32 },
{
    reveal(jump_spec);
}


proof fn lemma_execute_cost(op: u8, c: Cpu, m: BusView)
    ensures
        execute(op, c, m) is Ok ==> 4 <= execute(op, c, m)->Ok_0.2 <= 24,
{
    reveal(jump_spec);
    reveal(load8_spec);
    reveal(load16_spec);
    reveal(alu_spec);
    reveal(rotate_spec);
}

/// Every step that completes costs between 4 and 24 clock cycles.
pub proof fn lemma_step_cost(c: Cpu, m: BusView)
    ensures
        step(c, m) is Ok ==> 4 <= step(c, m)->Ok_0.2 <= 24,
{
    let c0 = Cpu { halted: false, ..c };
    if let Ok((c1, op)) = fetch8(c0, m) {
        lemma_execute_cost(op, c1, m);
    }
}


/// An absolute jump (0xC3) at PC loads PC with the little-endian word after the
/// opcode, leaves the bus alone and costs 16 cycles.
pub proof fn lemma_absolute_jump(c: Cpu, m: BusView)
    requires
        !c.halted,
        !(c.ime && pending_interrupts(m) != 0),
        bus_mapped(c.pc),
        bus_mapped(add16(c.pc, 1)),
        bus_mapped(add16(c.pc, 2)),
        m.read(c.pc) == 0xC3,
    ensures
        step(c, m) is Ok,
        regs_after(step(c, m)).pc == word(m.read(add16(c.pc, 1)), m.read(add16(c.pc, 2))),
        step(c, m)->Ok_0.1 == m,
        step(c, m)->Ok_0.2 == 16,
{
    reveal(jump_spec);
    assert(Cpu { halted: false, ..c } == c);
}


/// INC and DEC of any operand, the byte at HL included, keep the carry flag
/// and every register but the one they write.
pub proof fn lemma_inc_dec_keeps_carry(op: u8, c: Cpu, m: BusView)
    requires
        op < 0x40,
        op % 8 == 4 || op % 8 == 5,
    ensures
        execute(op, c, m) is Ok ==> regs_after(execute(op, c, m)).carry == c.carry
            && regs_after(execute(op, c, m)).sp == c.sp,
        op / 8 == 6 && bus_mapped(hl(c)) ==> execute(op, c, m) is Ok,
        op / 8 != 6 ==> execute(op, c, m) is Ok,
{
    lemma_execute_inc_dec(op, c, m);
}

/// A relative jump consumes its offset byte; taken, it lands at the address
/// after that byte plus the sign-extended offset and costs 12 cycles; not
/// taken, it goes on after the offset byte and costs 8. Only PC changes.
pub proof fn lemma_relative_jump(op: u8, c: Cpu, m: BusView)
    requires
        op == 0x18 || op == 0x20 || op == 0x28 || op == 0x30 || op == 0x38,
        bus_mapped(c.pc),
    ensures
        execute(op, c, m) is Ok,
        execute(op, c, m)->Ok_0.1 == m,
        regs_after(execute(op, c, m)) == with_pc(
            c,
            if op == 0x18 || condition(c, op) {
                add16(add16(c.pc, 1), signed(m.read(c.pc)))
            } else {
                add16(c.pc, 1)
            },
        ),
        execute(op, c, m)->Ok_0.2 == if op == 0x18 || condition(c, op) { 12u32 } else { 8u32 },
{
    reveal(jump_spec);
}

} // verus!
