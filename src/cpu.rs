//! The 6502 core: fetch, decode and execute, interrupts, stack and flags.

use vstd::prelude::*;

use crate::bus::{word, CpuBus, CpuBusView};
use crate::error::NesError;

verus! {

/// Page that holds the stack.
pub const STACK_BASE: u16 = 0x0100;

pub const FLAG_C: u8 = 0x01;

pub const FLAG_Z: u8 = 0x02;

pub const FLAG_I: u8 = 0x04;

pub const FLAG_D: u8 = 0x08;

/// The two "break" bits, B and U, that only exist on the stack copy of P.
pub const FLAG_BREAK: u8 = 0x30;

/// U: always set.
pub const FLAG_U: u8 = 0x20;

pub const FLAG_V: u8 = 0x40;

pub const FLAG_N: u8 = 0x80;

pub const NMI_VECTOR: u16 = 0xFFFA;

pub const RESET_VECTOR: u16 = 0xFFFC;

pub const IRQ_VECTOR: u16 = 0xFFFE;

/// Status after power-on and reset: I and U set.
pub const POWER_ON_STATUS: u8 = 0x24;

/// Stack pointer after power-on and reset.
pub const POWER_ON_STACK: u8 = 0xFD;

#[derive(Debug, Clone, Copy, PartialEq, Eq, Structural)]
pub enum AddrMode {
    ZeroPageIndexedX,
    ZeroPageIndexedY,
    AbsoluteIndexedX,
    AbsoluteIndexedY,
    IndexedIndirectX,
    IndirectIndexedY,
    Accumulator,
    Immediate,
    ZeroPage,
    Absolute,
    Relative,
    Indirect,
    /// No operand.
    Implied,
}

/// An instruction, official or not; `Nop` carries the operand bytes it skips.
#[derive(Debug, Clone, Copy, PartialEq, Eq, Structural)]
pub enum Op {
    Adc,
    And,
    Asl,
    Bcc,
    Bcs,
    Beq,
    Bit,
    Bmi,
    Bne,
    Bpl,
    Brk,
    Bvc,
    Bvs,
    Clc,
    Cld,
    Cli,
    Clv,
    Cmp,
    Cpx,
    Cpy,
    Dec,
    Dex,
    Dey,
    Eor,
    Inc,
    Inx,
    Iny,
    Jmp,
    Jsr,
    Lda,
    Ldx,
    Ldy,
    Lsr,
    Nop(u8),
    Ora,
    Pha,
    Php,
    Pla,
    Plp,
    Rol,
    Ror,
    Rti,
    Rts,
    Sbc,
    Sec,
    Sed,
    Sei,
    Sta,
    Stx,
    Sty,
    Tax,
    Tay,
    Tsx,
    Txa,
    Txs,
    Tya,
    Lax,
    Sax,
    Dcp,
    Isc,
    Axs,
    Slo,
    Rla,
    Sre,
    Rra,
    Stp,
    Shx,
    Shy,
    /// An unofficial opcode outside the implemented set.
    Unknown,
}

// ------------------------------------------------------------ flags

/// `p` with the bits of `mask` set or cleared.
pub open spec fn set_flag(p: u8, mask: u8, on: bool) -> u8 {
    if on {
        p | mask
    } else {
        p & !mask
    }
}

pub open spec fn flag(p: u8, mask: u8) -> bool {
    p & mask != 0
}

/// `p` with Z and N describing `v`.
pub open spec fn with_zn(p: u8, v: u8) -> u8 {
    set_flag(set_flag(p, FLAG_Z, v == 0), FLAG_N, v >= 0x80)
}

/// Result, carry and overflow of `a + m + carry`.
pub open spec fn spec_adc(a: u8, m: u8, carry: bool) -> (u8, bool, bool) {
    let sum = a + m + if carry { 1int } else { 0 };
    let r = (sum % 256) as u8;
    (r, sum > 255, (a >= 0x80) == (m >= 0x80) && (r >= 0x80) != (a >= 0x80))
}

/// Result, carry (no borrow) and overflow of `a - m - (1 - carry)`.
pub open spec fn spec_sbc(a: u8, m: u8, carry: bool) -> (u8, bool, bool) {
    let diff = a - m - if carry { 0int } else { 1 };
    let r = ((diff + 512) % 256) as u8;
    (r, diff >= 0, (a >= 0x80) != (m >= 0x80) && (r >= 0x80) != (a >= 0x80))
}

/// Flags after comparing `reg` with `m`: Z and N of the difference, C when `reg >= m`.
pub open spec fn compare_flags(p: u8, reg: u8, m: u8) -> u8 {
    set_flag(with_zn(p, reg.wrapping_sub(m)), FLAG_C, reg >= m)
}

/// Result and carry of the shifts and rotates.
pub open spec fn spec_shift(op: Op, v: u8, carry: bool) -> (u8, bool) {
    match op {
        Op::Asl => (((v as int * 2) % 256) as u8, v >= 0x80),
        Op::Rol => (((v as int * 2 + if carry { 1int } else { 0 }) % 256) as u8, v >= 0x80),
        Op::Lsr => ((v / 2) as u8, v % 2 == 1),
        _ => ((v / 2 + if carry { 128int } else { 0 }) as u8, v % 2 == 1),
    }
}

// ------------------------------------------------------------ addressing

/// Zero-page indexed addresses wrap within the zero page.
pub open spec fn zero_page_indexed(base: u8, index: u8) -> u16 {
    base.wrapping_add(index) as u16
}

/// Where `JMP (ptr)` finds the high byte of its target: the carry out of the
/// low byte of `ptr` is lost.
pub open spec fn indirect_high_addr(ptr: u16) -> u16 {
    (ptr & 0xFF00) | (ptr.wrapping_add(1) & 0x00FF)
}

/// Target of a branch at `pc` with signed offset byte `offset`.
pub open spec fn branch_target(pc: u16, offset: u8) -> u16 {
    if offset >= 0x80 {
        pc.wrapping_add((offset as int + 0xFF00) as u16)
    } else {
        pc.wrapping_add(offset as u16)
    }
}

pub open spec fn spec_ctrl_mode(m: u8) -> AddrMode {
    if m == 0 {
        AddrMode::ZeroPage
    } else if m == 1 {
        AddrMode::Absolute
    } else if m == 2 {
        AddrMode::ZeroPageIndexedX
    } else {
        AddrMode::AbsoluteIndexedX
    }
}

pub open spec fn spec_alu_mode(m: u8) -> AddrMode {
    if m == 0 {
        AddrMode::IndexedIndirectX
    } else if m == 1 {
        AddrMode::ZeroPage
    } else if m == 2 {
        AddrMode::Immediate
    } else if m == 3 {
        AddrMode::Absolute
    } else if m == 4 {
        AddrMode::IndirectIndexedY
    } else if m == 5 {
        AddrMode::ZeroPageIndexedX
    } else if m == 6 {
        AddrMode::AbsoluteIndexedY
    } else {
        AddrMode::AbsoluteIndexedX
    }
}

pub open spec fn spec_ax_mode(m: u8) -> AddrMode {
    if m == 0 {
        AddrMode::IndexedIndirectX
    } else if m == 1 {
        AddrMode::ZeroPage
    } else if m == 2 {
        AddrMode::Immediate
    } else if m == 3 {
        AddrMode::Absolute
    } else if m == 4 {
        AddrMode::IndirectIndexedY
    } else if m == 5 {
        AddrMode::ZeroPageIndexedY
    } else {
        AddrMode::AbsoluteIndexedY
    }
}

pub open spec fn spec_rmw_mode_x(m: u8) -> AddrMode {
    spec_ctrl_mode(m)
}

pub open spec fn spec_rmw_mode_y(m: u8) -> AddrMode {
    if m == 0 {
        AddrMode::ZeroPage
    } else if m == 1 {
        AddrMode::Absolute
    } else if m == 2 {
        AddrMode::ZeroPageIndexedY
    } else {
        AddrMode::AbsoluteIndexedY
    }
}

/// The instruction and addressing mode of an opcode.
pub open spec fn spec_decode(opcode: u8) -> (Op, AddrMode) {
    let h = opcode >> 5u8;
    let m2 = (opcode >> 3u8) & 3;
    let m3 = (opcode >> 2u8) & 7;
    if opcode == 0x00 {
        (Op::Brk, AddrMode::Implied)
    } else if opcode == 0x20 {
        (Op::Jsr, AddrMode::Absolute)
    } else if opcode == 0x40 {
        (Op::Rti, AddrMode::Implied)
    } else if opcode == 0x60 {
        (Op::Rts, AddrMode::Implied)
    } else if opcode == 0x80 {
        (Op::Nop(1), AddrMode::Implied)
    } else if opcode == 0xA0 {
        (Op::Ldy, AddrMode::Immediate)
    } else if opcode == 0xC0 {
        (Op::Cpy, AddrMode::Immediate)
    } else if opcode == 0xE0 {
        (Op::Cpx, AddrMode::Immediate)
    } else if opcode & 0x1F == 0x04 && (h == 0 || h == 2 || h == 3) {
        (Op::Nop(1), AddrMode::Implied)
    } else if opcode & 0xF7 == 0x24 {
        (Op::Bit, spec_ctrl_mode(m2))
    } else if opcode & 0xE7 == 0x84 && m2 != 3 {
        (Op::Sty, spec_ctrl_mode(m2))
    } else if opcode & 0xE7 == 0xA4 {
        (Op::Ldy, spec_ctrl_mode(m2))
    } else if opcode & 0xF7 == 0xC4 {
        (Op::Cpy, spec_ctrl_mode(m2))
    } else if opcode & 0xF7 == 0xE4 {
        (Op::Cpx, spec_ctrl_mode(m2))
    } else if opcode == 0x08 {
        (Op::Php, AddrMode::Implied)
    } else if opcode == 0x28 {
        (Op::Plp, AddrMode::Implied)
    } else if opcode == 0x48 {
        (Op::Pha, AddrMode::Implied)
    } else if opcode == 0x68 {
        (Op::Pla, AddrMode::Implied)
    } else if opcode == 0x88 {
        (Op::Dey, AddrMode::Implied)
    } else if opcode == 0xA8 {
        (Op::Tay, AddrMode::Implied)
    } else if opcode == 0xC8 {
        (Op::Iny, AddrMode::Implied)
    } else if opcode == 0xE8 {
        (Op::Inx, AddrMode::Implied)
    } else if opcode == 0x0C {
        (Op::Nop(2), AddrMode::Implied)
    } else if opcode == 0x4C {
        (Op::Jmp, AddrMode::Absolute)
    } else if opcode == 0x6C {
        (Op::Jmp, AddrMode::Indirect)
    } else if opcode == 0x10 {
        (Op::Bpl, AddrMode::Relative)
    } else if opcode == 0x30 {
        (Op::Bmi, AddrMode::Relative)
    } else if opcode == 0x50 {
        (Op::Bvc, AddrMode::Relative)
    } else if opcode == 0x70 {
        (Op::Bvs, AddrMode::Relative)
    } else if opcode == 0x90 {
        (Op::Bcc, AddrMode::Relative)
    } else if opcode == 0xB0 {
        (Op::Bcs, AddrMode::Relative)
    } else if opcode == 0xD0 {
        (Op::Bne, AddrMode::Relative)
    } else if opcode == 0xF0 {
        (Op::Beq, AddrMode::Relative)
    } else if opcode & 0x1F == 0x14 && h != 4 && h != 5 {
        (Op::Nop(1), AddrMode::Implied)
    } else if opcode == 0x18 {
        (Op::Clc, AddrMode::Implied)
    } else if opcode == 0x38 {
        (Op::Sec, AddrMode::Implied)
    } else if opcode == 0x58 {
        (Op::Cli, AddrMode::Implied)
    } else if opcode == 0x78 {
        (Op::Sei, AddrMode::Implied)
    } else if opcode == 0x98 {
        (Op::Tya, AddrMode::Implied)
    } else if opcode == 0xB8 {
        (Op::Clv, AddrMode::Implied)
    } else if opcode == 0xD8 {
        (Op::Cld, AddrMode::Implied)
    } else if opcode == 0xF8 {
        (Op::Sed, AddrMode::Implied)
    } else if opcode & 0x1F == 0x1C && h != 4 && h != 5 {
        (Op::Nop(2), AddrMode::Implied)
    } else if opcode == 0x9C {
        (Op::Shy, AddrMode::AbsoluteIndexedX)
    } else if opcode & 0xE3 == 0x01 {
        (Op::Ora, spec_alu_mode(m3))
    } else if opcode & 0xE3 == 0x21 {
        (Op::And, spec_alu_mode(m3))
    } else if opcode & 0xE3 == 0x41 {
        (Op::Eor, spec_alu_mode(m3))
    } else if opcode & 0xE3 == 0x61 {
        (Op::Adc, spec_alu_mode(m3))
    } else if opcode & 0xE3 == 0x81 && m3 != 2 {
        (Op::Sta, spec_alu_mode(m3))
    } else if opcode & 0xE3 == 0xA1 {
        (Op::Lda, spec_alu_mode(m3))
    } else if opcode & 0xE3 == 0xC1 {
        (Op::Cmp, spec_alu_mode(m3))
    } else if opcode & 0xE3 == 0xE1 {
        (Op::Sbc, spec_alu_mode(m3))
    } else if opcode == 0x89 {
        (Op::Nop(1), AddrMode::Implied)
    } else if opcode == 0xA2 {
        (Op::Ldx, AddrMode::Immediate)
    } else if opcode & 0x1F == 0x02 && h <= 3 {
        (Op::Stp, AddrMode::Implied)
    } else if opcode & 0x1F == 0x02 {
        (Op::Nop(1), AddrMode::Implied)
    } else if opcode & 0xE7 == 0x06 {
        (Op::Asl, spec_rmw_mode_x(m2))
    } else if opcode & 0xE7 == 0x26 {
        (Op::Rol, spec_rmw_mode_x(m2))
    } else if opcode & 0xE7 == 0x46 {
        (Op::Lsr, spec_rmw_mode_x(m2))
    } else if opcode & 0xE7 == 0x66 {
        (Op::Ror, spec_rmw_mode_x(m2))
    } else if opcode & 0xE7 == 0x86 && m2 != 3 {
        (Op::Stx, spec_rmw_mode_y(m2))
    } else if opcode & 0xE7 == 0xA6 {
        (Op::Ldx, spec_rmw_mode_y(m2))
    } else if opcode & 0xE7 == 0xC6 {
        (Op::Dec, spec_rmw_mode_x(m2))
    } else if opcode & 0xE7 == 0xE6 {
        (Op::Inc, spec_rmw_mode_x(m2))
    } else if opcode == 0x0A {
        (Op::Asl, AddrMode::Accumulator)
    } else if opcode == 0x2A {
        (Op::Rol, AddrMode::Accumulator)
    } else if opcode == 0x4A {
        (Op::Lsr, AddrMode::Accumulator)
    } else if opcode == 0x6A {
        (Op::Ror, AddrMode::Accumulator)
    } else if opcode == 0x8A {
        (Op::Txa, AddrMode::Implied)
    } else if opcode == 0xAA {
        (Op::Tax, AddrMode::Implied)
    } else if opcode == 0xCA {
        (Op::Dex, AddrMode::Implied)
    } else if opcode == 0xEA {
        (Op::Nop(0), AddrMode::Implied)
    } else if opcode & 0x1F == 0x12 {
        (Op::Stp, AddrMode::Implied)
    } else if opcode & 0x1F == 0x1A && h != 4 && h != 5 {
        (Op::Nop(0), AddrMode::Implied)
    } else if opcode == 0x9A {
        (Op::Txs, AddrMode::Implied)
    } else if opcode == 0xBA {
        (Op::Tsx, AddrMode::Implied)
    } else if opcode == 0x9E {
        (Op::Shx, AddrMode::AbsoluteIndexedY)
    } else if opcode & 0xE3 == 0xA3 && m3 != 2 && m3 != 6 {
        (Op::Lax, spec_ax_mode(m3))
    } else if opcode & 0xE3 == 0x83 && (m3 == 0 || m3 == 1 || m3 == 3 || m3 == 5) {
        (Op::Sax, spec_ax_mode(m3))
    } else if opcode & 0xE3 == 0xC3 && m3 != 2 {
        (Op::Dcp, spec_alu_mode(m3))
    } else if opcode & 0xE3 == 0xE3 && m3 != 2 {
        (Op::Isc, spec_alu_mode(m3))
    } else if opcode == 0xCB {
        (Op::Axs, AddrMode::Immediate)
    } else if opcode == 0xEB {
        (Op::Sbc, AddrMode::Immediate)
    } else if opcode & 0x03 == 0x03 && h <= 3 && m3 == 2 {
        (Op::Unknown, AddrMode::Implied)
    } else if opcode & 0xE3 == 0x03 {
        (Op::Slo, spec_alu_mode(m3))
    } else if opcode & 0xE3 == 0x23 {
        (Op::Rla, spec_alu_mode(m3))
    } else if opcode & 0xE3 == 0x43 {
        (Op::Sre, spec_alu_mode(m3))
    } else if opcode & 0xE3 == 0x63 {
        (Op::Rra, spec_alu_mode(m3))
    } else {
        (Op::Unknown, AddrMode::Implied)
    }
}

/// Whether the core implements the instruction.
pub open spec fn supported(op: Op) -> bool {
    !(op == Op::Shx || op == Op::Shy || op == Op::Unknown)
}

// ------------------------------------------------------------ state

pub struct CpuView {
    pub a: u8,
    pub x: u8,
    pub y: u8,
    pub s: u8,
    pub p: u8,
    pub pc: u16,
    pub irq: bool,
    pub halt: bool,
    pub bus: CpuBusView,
}

impl CpuView {
    pub open spec fn read(self, addr: u16) -> (u8, CpuView) {
        (self.bus.peek(addr), CpuView { bus: self.bus.after_read(addr), ..self })
    }

    pub open spec fn read_word(self, addr: u16) -> (u16, CpuView) {
        (
            word(self.bus.peek(addr), self.bus.after_read(addr).peek(addr.wrapping_add(1))),
            CpuView { bus: self.bus.after_read(addr).after_read(addr.wrapping_add(1)), ..self },
        )
    }

    pub open spec fn write(self, addr: u16, data: u8) -> CpuView {
        CpuView { bus: self.bus.write(addr, data), ..self }
    }

    /// Reads the byte at PC and moves PC past it.
    pub open spec fn fetch(self) -> (u8, CpuView) {
        let (v, t) = self.read(self.pc);
        (v, CpuView { pc: self.pc.wrapping_add(1), ..t })
    }

    pub open spec fn fetch_word(self) -> (u16, CpuView) {
        let (w, t) = self.read_word(self.pc);
        (w, CpuView { pc: self.pc.wrapping_add(2), ..t })
    }

    pub open spec fn zero_page_operand(self, index: u8) -> (u16, CpuView) {
        let (o, t) = self.fetch();
        (zero_page_indexed(o, index), t)
    }

    pub open spec fn absolute_operand(self, index: u8) -> (u16, CpuView) {
        let (w, t) = self.fetch_word();
        (w.wrapping_add(index as u16), t)
    }

    /// The pointer at `ptr`, with the high byte taken from the same page.
    pub open spec fn indirect_page(self, ptr: u16) -> (u16, CpuView) {
        let (low, t) = self.read(ptr);
        let (high, u) = t.read(indirect_high_addr(ptr));
        (word(low, high), u)
    }

    /// The pointer at zero-page address `ptr`, wrapping within the zero page.
    pub open spec fn indirect_zero_page(self, ptr: u8) -> (u16, CpuView) {
        let (low, t) = self.read(ptr as u16);
        let (high, u) = t.read(ptr.wrapping_add(1) as u16);
        (word(low, high), u)
    }

    /// The effective address of an operand, and the state after its bytes are fetched.
    pub open spec fn operand(self, mode: AddrMode) -> (u16, CpuView) {
        match mode {
            AddrMode::Immediate => (self.pc, CpuView { pc: self.pc.wrapping_add(1), ..self }),
            AddrMode::ZeroPage => self.zero_page_operand(0),
            AddrMode::Absolute => self.absolute_operand(0),
            AddrMode::Relative => {
                let (o, t) = self.fetch();
                (branch_target(t.pc, o), t)
            },
            AddrMode::Indirect => {
                let (ptr, t) = self.absolute_operand(0);
                t.indirect_page(ptr)
            },
            AddrMode::ZeroPageIndexedX => self.zero_page_operand(self.x),
            AddrMode::ZeroPageIndexedY => self.zero_page_operand(self.y),
            AddrMode::AbsoluteIndexedX => self.absolute_operand(self.x),
            AddrMode::AbsoluteIndexedY => self.absolute_operand(self.y),
            AddrMode::IndexedIndirectX => {
                let (o, t) = self.fetch();
                t.indirect_zero_page(o.wrapping_add(self.x))
            },
            AddrMode::IndirectIndexedY => {
                let (o, t) = self.fetch();
                let (w, u) = t.indirect_zero_page(o);
                (w.wrapping_add(self.y as u16), u)
            },
            _ => (0, self),
        }
    }

    /// The operand value, read at the effective address.
    pub open spec fn load(self, mode: AddrMode) -> (u8, CpuView) {
        let (addr, t) = self.operand(mode);
        t.read(addr)
    }

    /// Writes at `$0100 + S`, then decrements S.
    pub open spec fn push(self, v: u8) -> CpuView {
        CpuView { s: self.s.wrapping_sub(1), ..self.write((STACK_BASE + self.s) as u16, v) }
    }

    /// Increments S, then reads at `$0100 + S`.
    pub open spec fn pop(self) -> (u8, CpuView) {
        let s = self.s.wrapping_add(1);
        CpuView { s, ..self }.read((STACK_BASE + s) as u16)
    }

    /// High byte first, so that the low byte ends up lower in memory.
    pub open spec fn push16(self, v: u16) -> CpuView {
        self.push((v / 256) as u8).push((v % 256) as u8)
    }

    pub open spec fn pop16(self) -> (u16, CpuView) {
        let (low, t) = self.pop();
        let (high, u) = t.pop();
        (word(low, high), u)
    }

    /// Register and flag update of the instructions that read one operand value `m`.
    pub open spec fn apply_read(self, op: Op, m: u8) -> CpuView {
        match op {
            Op::Lda => CpuView { a: m, p: with_zn(self.p, m), ..self },
            Op::Ldx => CpuView { x: m, p: with_zn(self.p, m), ..self },
            Op::Ldy => CpuView { y: m, p: with_zn(self.p, m), ..self },
            Op::Lax => CpuView { a: m, x: m, p: with_zn(self.p, m), ..self },
            Op::Ora => CpuView { a: self.a | m, p: with_zn(self.p, self.a | m), ..self },
            Op::And => CpuView { a: self.a & m, p: with_zn(self.p, self.a & m), ..self },
            Op::Eor => CpuView { a: self.a ^ m, p: with_zn(self.p, self.a ^ m), ..self },
            Op::Adc => {
                let (r, c, v) = spec_adc(self.a, m, flag(self.p, FLAG_C));
                CpuView {
                    a: r,
                    p: set_flag(set_flag(with_zn(self.p, r), FLAG_V, v), FLAG_C, c),
                    ..self
                }
            },
            Op::Sbc => {
                let (r, c, v) = spec_sbc(self.a, m, flag(self.p, FLAG_C));
                CpuView {
                    a: r,
                    p: set_flag(set_flag(with_zn(self.p, r), FLAG_V, v), FLAG_C, c),
                    ..self
                }
            },
            Op::Cmp => CpuView { p: compare_flags(self.p, self.a, m), ..self },
            Op::Cpx => CpuView { p: compare_flags(self.p, self.x, m), ..self },
            Op::Cpy => CpuView { p: compare_flags(self.p, self.y, m), ..self },
            Op::Bit => CpuView {
                p: set_flag(
                    set_flag(set_flag(self.p, FLAG_Z, self.a & m == 0), FLAG_N, m >= 0x80),
                    FLAG_V,
                    m & 0x40 != 0,
                ),
                ..self
            },
            Op::Axs => {
                let r = (self.a & self.x).wrapping_sub(m);
                CpuView { x: r, p: set_flag(with_zn(self.p, r), FLAG_C, self.a & self.x >= m), ..self }
            },
            _ => self,
        }
    }

    /// The register a store instruction writes.
    pub open spec fn store_value(self, op: Op) -> u8 {
        match op {
            Op::Sta => self.a,
            Op::Stx => self.x,
            Op::Sty => self.y,
            _ => self.a & self.x,
        }
    }

    /// Shifts and rotates, on A or on memory.
    pub open spec fn shift(self, op: Op, mode: AddrMode) -> CpuView {
        let (addr, t) = self.operand(mode);
        if mode == AddrMode::Accumulator {
            let (r, c) = spec_shift(op, t.a, flag(t.p, FLAG_C));
            CpuView { a: r, p: set_flag(with_zn(t.p, r), FLAG_C, c), ..t }
        } else {
            let (v, u) = t.read(addr);
            let (r, c) = spec_shift(op, v, flag(u.p, FLAG_C));
            let w = u.write(addr, r);
            CpuView { p: set_flag(with_zn(w.p, r), FLAG_C, c), ..w }
        }
    }

    /// INC and DEC on memory.
    pub open spec fn step_memory(self, op: Op, mode: AddrMode) -> CpuView {
        let (addr, t) = self.operand(mode);
        let (v, u) = t.read(addr);
        let r = if op == Op::Inc { v.wrapping_add(1) } else { v.wrapping_sub(1) };
        let w = u.write(addr, r);
        CpuView { p: with_zn(w.p, r), ..w }
    }

    pub open spec fn branch_taken(self, op: Op) -> bool {
        match op {
            Op::Bpl => !flag(self.p, FLAG_N),
            Op::Bmi => flag(self.p, FLAG_N),
            Op::Bvc => !flag(self.p, FLAG_V),
            Op::Bvs => flag(self.p, FLAG_V),
            Op::Bcc => !flag(self.p, FLAG_C),
            Op::Bcs => flag(self.p, FLAG_C),
            Op::Bne => !flag(self.p, FLAG_Z),
            _ => flag(self.p, FLAG_Z),
        }
    }

    /// Instructions without an operand that only touch registers.
    pub open spec fn implied(self, op: Op) -> CpuView {
        match op {
            Op::Clc => CpuView { p: set_flag(self.p, FLAG_C, false), ..self },
            Op::Sec => CpuView { p: set_flag(self.p, FLAG_C, true), ..self },
            Op::Cli => CpuView { p: set_flag(self.p, FLAG_I, false), ..self },
            Op::Sei => CpuView { p: set_flag(self.p, FLAG_I, true), ..self },
            Op::Clv => CpuView { p: set_flag(self.p, FLAG_V, false), ..self },
            Op::Cld => CpuView { p: set_flag(self.p, FLAG_D, false), ..self },
            Op::Sed => CpuView { p: set_flag(self.p, FLAG_D, true), ..self },
            Op::Tax => CpuView { x: self.a, p: with_zn(self.p, self.a), ..self },
            Op::Txa => CpuView { a: self.x, p: with_zn(self.p, self.x), ..self },
            Op::Tay => CpuView { y: self.a, p: with_zn(self.p, self.a), ..self },
            Op::Tya => CpuView { a: self.y, p: with_zn(self.p, self.y), ..self },
            Op::Tsx => CpuView { x: self.s, p: with_zn(self.p, self.s), ..self },
            Op::Txs => CpuView { s: self.x, ..self },
            Op::Inx => CpuView {
                x: self.x.wrapping_add(1),
                p: with_zn(self.p, self.x.wrapping_add(1)),
                ..self
            },
            Op::Iny => CpuView {
                y: self.y.wrapping_add(1),
                p: with_zn(self.p, self.y.wrapping_add(1)),
                ..self
            },
            Op::Dex => CpuView {
                x: self.x.wrapping_sub(1),
                p: with_zn(self.p, self.x.wrapping_sub(1)),
                ..self
            },
            Op::Dey => CpuView {
                y: self.y.wrapping_sub(1),
                p: with_zn(self.p, self.y.wrapping_sub(1)),
                ..self
            },
            Op::Nop(n) => CpuView { pc: self.pc.wrapping_add(n as u16), ..self },
            Op::Stp => CpuView { halt: true, ..self },
            _ => self,
        }
    }

    /// Pulled status: the stored B and U bits are ignored, the current ones kept.
    pub open spec fn pulled_status(self, v: u8) -> u8 {
        (v & !FLAG_BREAK) | (self.p & FLAG_BREAK)
    }

    /// Stack and control-flow instructions.
    pub open spec fn control(self, op: Op, mode: AddrMode) -> CpuView {
        match op {
            Op::Brk => {
                let (target, t) = self.read_word(IRQ_VECTOR);
                let u = t.push16(t.pc.wrapping_add(1)).push(t.p | FLAG_BREAK);
                CpuView { p: set_flag(u.p, FLAG_I, true), pc: target, ..u }
            },
            Op::Jsr => {
                let (target, t) = self.operand(mode);
                CpuView { pc: target, ..t.push16(t.pc.wrapping_sub(1)) }
            },
            Op::Rts => {
                let (ret, t) = self.pop16();
                CpuView { pc: ret.wrapping_add(1), ..t }
            },
            Op::Rti => {
                let (v, t) = self.pop();
                let t2 = CpuView { p: self.pulled_status(v), ..t };
                let (ret, u) = t2.pop16();
                CpuView { pc: ret, ..u }
            },
            Op::Php => self.push(self.p | FLAG_BREAK),
            Op::Plp => {
                let (v, t) = self.pop();
                CpuView { p: self.pulled_status(v), ..t }
            },
            Op::Pha => self.push(self.a),
            Op::Pla => {
                let (v, t) = self.pop();
                CpuView { a: v, p: with_zn(t.p, v), ..t }
            },
            _ => {
                let (target, t) = self.operand(mode);
                CpuView { pc: target, ..t }
            },
        }
    }

    /// The combined unofficial opcodes: a read-modify-write of the operand,
    /// then an ALU instruction on the same operand.
    pub open spec fn combined(self, op: Op, mode: AddrMode) -> CpuView {
        let t = match op {
            Op::Dcp => self.step_memory(Op::Dec, mode),
            Op::Isc => self.step_memory(Op::Inc, mode),
            Op::Slo => self.shift(Op::Asl, mode),
            Op::Rla => self.shift(Op::Rol, mode),
            Op::Sre => self.shift(Op::Lsr, mode),
            _ => self.shift(Op::Ror, mode),
        };
        let second = match op {
            Op::Dcp => Op::Cmp,
            Op::Isc => Op::Sbc,
            Op::Slo => Op::Ora,
            Op::Rla => Op::And,
            Op::Sre => Op::Eor,
            _ => Op::Adc,
        };
        let (m, u) = CpuView { pc: self.pc, ..t }.load(mode);
        u.apply_read(second, m)
    }

    /// The state after executing `op` once its opcode byte has been fetched.
    pub open spec fn execute(self, op: Op, mode: AddrMode) -> CpuView {
        match op {
            Op::Lda | Op::Ldx | Op::Ldy | Op::Lax | Op::Ora | Op::And | Op::Eor | Op::Adc | Op::Sbc
            | Op::Cmp | Op::Cpx | Op::Cpy | Op::Bit | Op::Axs => {
                let (m, t) = self.load(mode);
                t.apply_read(op, m)
            },
            Op::Sta | Op::Stx | Op::Sty | Op::Sax => {
                let (addr, t) = self.operand(mode);
                t.write(addr, self.store_value(op))
            },
            Op::Asl | Op::Lsr | Op::Rol | Op::Ror => self.shift(op, mode),
            Op::Inc | Op::Dec => self.step_memory(op, mode),
            Op::Bpl | Op::Bmi | Op::Bvc | Op::Bvs | Op::Bcc | Op::Bcs | Op::Bne | Op::Beq => {
                let (target, t) = self.operand(mode);
                if self.branch_taken(op) {
                    CpuView { pc: target, ..t }
                } else {
                    t
                }
            },
            Op::Brk | Op::Jsr | Op::Rts | Op::Rti | Op::Php | Op::Plp | Op::Pha | Op::Pla
            | Op::Jmp => self.control(op, mode),
            Op::Dcp | Op::Isc | Op::Slo | Op::Rla | Op::Sre | Op::Rra => self.combined(op, mode),
            Op::Shx | Op::Shy | Op::Unknown => self,
            _ => self.implied(op),
        }
    }

    /// Status pushed by an interrupt: B clear, U set.
    pub open spec fn interrupt_status(self) -> u8 {
        (self.p & !FLAG_BREAK) | FLAG_U
    }

    /// NMI, then IRQ when enabled, each pushing PC and P and jumping through its vector.
    pub open spec fn interrupt(self) -> CpuView {
        let t = if self.bus.ppu.nmi {
            let c = CpuView { bus: CpuBusView { ppu: crate::ppu::PpuView { nmi: false, ..self.bus.ppu }, ..self.bus }, ..self };
            let pushed = c.push16(c.pc);
            let (target, u) = pushed.read_word(NMI_VECTOR);
            let w = CpuView { pc: target, ..u }.push(c.interrupt_status());
            CpuView { p: set_flag(w.p, FLAG_I, true), ..w }
        } else {
            self
        };
        if !flag(t.p, FLAG_I) && t.irq {
            let pushed = t.push16(t.pc);
            let (target, u) = pushed.read_word(IRQ_VECTOR);
            let w = CpuView { pc: target, ..u }.push(t.interrupt_status());
            CpuView { p: set_flag(w.p, FLAG_I, true), ..w }
        } else {
            t
        }
    }

    /// One CPU cycle: a pending DMA is served, a stall cycle is spent, or
    /// interrupts are taken and one instruction runs.
    pub open spec fn tick(self) -> CpuView {
        let c = CpuView { bus: CpuBusView { cycles: self.bus.cycles.wrapping_add(1), ..self.bus }, ..self };
        let d = CpuView { bus: c.bus.serve_dma(), ..c };
        if d.bus.stalls > 0 {
            CpuView { bus: CpuBusView { stalls: (d.bus.stalls - 1) as u32, ..d.bus }, ..d }
        } else {
            let i = d.interrupt();
            if i.halt {
                i
            } else {
                let (opcode, f) = i.fetch();
                let (op, mode) = spec_decode(opcode);
                f.execute(op, mode)
            }
        }
    }

    /// Whether the instruction that `tick` would run is one the core implements.
    pub open spec fn tick_ok(self) -> bool {
        let c = CpuView { bus: CpuBusView { cycles: self.bus.cycles.wrapping_add(1), ..self.bus }, ..self };
        let d = CpuView { bus: c.bus.serve_dma(), ..c };
        if d.bus.stalls > 0 {
            true
        } else {
            let i = d.interrupt();
            i.halt || supported(spec_decode(i.fetch().0).0)
        }
    }
}


// ------------------------------------------------------------ exec helpers

pub fn flag_set(p: u8, mask: u8, on: bool) -> (r: u8)
    ensures
        r == set_flag(p, mask, on),
{
    if on {
        p | mask
    } else {
        p & !mask
    }
}

pub fn zn(p: u8, v: u8) -> (r: u8)
    ensures
        r == with_zn(p, v),
{
    flag_set(flag_set(p, FLAG_Z, v == 0), FLAG_N, v >= 0x80)
}

/// `a + m + carry`: result, carry out and signed overflow.
pub fn adc(a: u8, m: u8, carry: bool) -> (r: (u8, bool, bool))
    ensures
        r == spec_adc(a, m, carry),
{
    let sum: u16 = a as u16 + m as u16 + if carry {
        1u16
    } else {
        0u16
    };
    let r = (sum % 256) as u8;
    (r, sum > 255, (a >= 0x80) == (m >= 0x80) && (r >= 0x80) != (a >= 0x80))
}

/// `a - m - (1 - carry)`: result, carry (no borrow) and signed overflow.
pub fn sbc(a: u8, m: u8, carry: bool) -> (r: (u8, bool, bool))
    ensures
        r == spec_sbc(a, m, carry),
{
    let diff: i16 = a as i16 - m as i16 - if carry {
        0i16
    } else {
        1i16
    };
    let r = ((diff + 512) % 256) as u8;
    (r, diff >= 0, (a >= 0x80) != (m >= 0x80) && (r >= 0x80) != (a >= 0x80))
}

fn shift_value(op: Op, v: u8, carry: bool) -> (r: (u8, bool))
    ensures
        r == spec_shift(op, v, carry),
{
    match op {
        Op::Asl => (((v as u16 * 2) % 256) as u8, v >= 0x80),
        Op::Rol => (((v as u16 * 2 + if carry {
            1u16
        } else {
            0u16
        }) % 256) as u8, v >= 0x80),
        Op::Lsr => (v / 2, v % 2 == 1),
        _ => (v / 2 + if carry {
            128u8
        } else {
            0u8
        }, v % 2 == 1),
    }
}

fn addr_mode_from_ctrl_mode(m: u8) -> (r: AddrMode)
    ensures
        r == spec_ctrl_mode(m),
{
    if m == 0 {
        AddrMode::ZeroPage
    } else if m == 1 {
        AddrMode::Absolute
    } else if m == 2 {
        AddrMode::ZeroPageIndexedX
    } else {
        AddrMode::AbsoluteIndexedX
    }
}

fn addr_mode_from_alu_mode(m: u8) -> (r: AddrMode)
    ensures
        r == spec_alu_mode(m),
{
    if m == 0 {
        AddrMode::IndexedIndirectX
    } else if m == 1 {
        AddrMode::ZeroPage
    } else if m == 2 {
        AddrMode::Immediate
    } else if m == 3 {
        AddrMode::Absolute
    } else if m == 4 {
        AddrMode::IndirectIndexedY
    } else if m == 5 {
        AddrMode::ZeroPageIndexedX
    } else if m == 6 {
        AddrMode::AbsoluteIndexedY
    } else {
        AddrMode::AbsoluteIndexedX
    }
}

fn addr_mode_from_ax_mode(m: u8) -> (r: AddrMode)
    ensures
        r == spec_ax_mode(m),
{
    if m == 0 {
        AddrMode::IndexedIndirectX
    } else if m == 1 {
        AddrMode::ZeroPage
    } else if m == 2 {
        AddrMode::Immediate
    } else if m == 3 {
        AddrMode::Absolute
    } else if m == 4 {
        AddrMode::IndirectIndexedY
    } else if m == 5 {
        AddrMode::ZeroPageIndexedY
    } else {
        AddrMode::AbsoluteIndexedY
    }
}

fn addr_mode_from_rmw_mode_x(m: u8) -> (r: AddrMode)
    ensures
        r == spec_rmw_mode_x(m),
{
    addr_mode_from_ctrl_mode(m)
}

fn addr_mode_from_rmw_mode_y(m: u8) -> (r: AddrMode)
    ensures
        r == spec_rmw_mode_y(m),
{
    if m == 0 {
        AddrMode::ZeroPage
    } else if m == 1 {
        AddrMode::Absolute
    } else if m == 2 {
        AddrMode::ZeroPageIndexedY
    } else {
        AddrMode::AbsoluteIndexedY
    }
}

/// Splits an opcode into instruction and addressing mode along the 6502's
/// regular layout (`aaabbbcc`).
pub fn decode(opcode: u8) -> (r: (Op, AddrMode))
    ensures
        r == spec_decode(opcode),
{
    let h = opcode >> 5u8;
    let m2 = (opcode >> 3u8) & 3;
    let m3 = (opcode >> 2u8) & 7;
    if opcode == 0x00 {
        (Op::Brk, AddrMode::Implied)
    } else if opcode == 0x20 {
        (Op::Jsr, AddrMode::Absolute)
    } else if opcode == 0x40 {
        (Op::Rti, AddrMode::Implied)
    } else if opcode == 0x60 {
        (Op::Rts, AddrMode::Implied)
    } else if opcode == 0x80 {
        (Op::Nop(1), AddrMode::Implied)
    } else if opcode == 0xA0 {
        (Op::Ldy, AddrMode::Immediate)
    } else if opcode == 0xC0 {
        (Op::Cpy, AddrMode::Immediate)
    } else if opcode == 0xE0 {
        (Op::Cpx, AddrMode::Immediate)
    } else if opcode & 0x1F == 0x04 && (h == 0 || h == 2 || h == 3) {
        (Op::Nop(1), AddrMode::Implied)
    } else if opcode & 0xF7 == 0x24 {
        (Op::Bit, addr_mode_from_ctrl_mode(m2))
    } else if opcode & 0xE7 == 0x84 && m2 != 3 {
        (Op::Sty, addr_mode_from_ctrl_mode(m2))
    } else if opcode & 0xE7 == 0xA4 {
        (Op::Ldy, addr_mode_from_ctrl_mode(m2))
    } else if opcode & 0xF7 == 0xC4 {
        (Op::Cpy, addr_mode_from_ctrl_mode(m2))
    } else if opcode & 0xF7 == 0xE4 {
        (Op::Cpx, addr_mode_from_ctrl_mode(m2))
    } else if opcode == 0x08 {
        (Op::Php, AddrMode::Implied)
    } else if opcode == 0x28 {
        (Op::Plp, AddrMode::Implied)
    } else if opcode == 0x48 {
        (Op::Pha, AddrMode::Implied)
    } else if opcode == 0x68 {
        (Op::Pla, AddrMode::Implied)
    } else if opcode == 0x88 {
        (Op::Dey, AddrMode::Implied)
    } else if opcode == 0xA8 {
        (Op::Tay, AddrMode::Implied)
    } else if opcode == 0xC8 {
        (Op::Iny, AddrMode::Implied)
    } else if opcode == 0xE8 {
        (Op::Inx, AddrMode::Implied)
    } else if opcode == 0x0C {
        (Op::Nop(2), AddrMode::Implied)
    } else if opcode == 0x4C {
        (Op::Jmp, AddrMode::Absolute)
    } else if opcode == 0x6C {
        (Op::Jmp, AddrMode::Indirect)
    } else if opcode == 0x10 {
        (Op::Bpl, AddrMode::Relative)
    } else if opcode == 0x30 {
        (Op::Bmi, AddrMode::Relative)
    } else if opcode == 0x50 {
        (Op::Bvc, AddrMode::Relative)
    } else if opcode == 0x70 {
        (Op::Bvs, AddrMode::Relative)
    } else if opcode == 0x90 {
        (Op::Bcc, AddrMode::Relative)
    } else if opcode == 0xB0 {
        (Op::Bcs, AddrMode::Relative)
    } else if opcode == 0xD0 {
        (Op::Bne, AddrMode::Relative)
    } else if opcode == 0xF0 {
        (Op::Beq, AddrMode::Relative)
    } else if opcode & 0x1F == 0x14 && h != 4 && h != 5 {
        (Op::Nop(1), AddrMode::Implied)
    } else if opcode == 0x18 {
        (Op::Clc, AddrMode::Implied)
    } else if opcode == 0x38 {
        (Op::Sec, AddrMode::Implied)
    } else if opcode == 0x58 {
        (Op::Cli, AddrMode::Implied)
    } else if opcode == 0x78 {
        (Op::Sei, AddrMode::Implied)
    } else if opcode == 0x98 {
        (Op::Tya, AddrMode::Implied)
    } else if opcode == 0xB8 {
        (Op::Clv, AddrMode::Implied)
    } else if opcode == 0xD8 {
        (Op::Cld, AddrMode::Implied)
    } else if opcode == 0xF8 {
        (Op::Sed, AddrMode::Implied)
    } else if opcode & 0x1F == 0x1C && h != 4 && h != 5 {
        (Op::Nop(2), AddrMode::Implied)
    } else if opcode == 0x9C {
        (Op::Shy, AddrMode::AbsoluteIndexedX)
    } else if opcode & 0xE3 == 0x01 {
        (Op::Ora, addr_mode_from_alu_mode(m3))
    } else if opcode & 0xE3 == 0x21 {
        (Op::And, addr_mode_from_alu_mode(m3))
    } else if opcode & 0xE3 == 0x41 {
        (Op::Eor, addr_mode_from_alu_mode(m3))
    } else if opcode & 0xE3 == 0x61 {
        (Op::Adc, addr_mode_from_alu_mode(m3))
    } else if opcode & 0xE3 == 0x81 && m3 != 2 {
        (Op::Sta, addr_mode_from_alu_mode(m3))
    } else if opcode & 0xE3 == 0xA1 {
        (Op::Lda, addr_mode_from_alu_mode(m3))
    } else if opcode & 0xE3 == 0xC1 {
        (Op::Cmp, addr_mode_from_alu_mode(m3))
    } else if opcode & 0xE3 == 0xE1 {
        (Op::Sbc, addr_mode_from_alu_mode(m3))
    } else if opcode == 0x89 {
        (Op::Nop(1), AddrMode::Implied)
    } else if opcode == 0xA2 {
        (Op::Ldx, AddrMode::Immediate)
    } else if opcode & 0x1F == 0x02 && h <= 3 {
        (Op::Stp, AddrMode::Implied)
    } else if opcode & 0x1F == 0x02 {
        (Op::Nop(1), AddrMode::Implied)
    } else if opcode & 0xE7 == 0x06 {
        (Op::Asl, addr_mode_from_rmw_mode_x(m2))
    } else if opcode & 0xE7 == 0x26 {
        (Op::Rol, addr_mode_from_rmw_mode_x(m2))
    } else if opcode & 0xE7 == 0x46 {
        (Op::Lsr, addr_mode_from_rmw_mode_x(m2))
    } else if opcode & 0xE7 == 0x66 {
        (Op::Ror, addr_mode_from_rmw_mode_x(m2))
    } else if opcode & 0xE7 == 0x86 && m2 != 3 {
        (Op::Stx, addr_mode_from_rmw_mode_y(m2))
    } else if opcode & 0xE7 == 0xA6 {
        (Op::Ldx, addr_mode_from_rmw_mode_y(m2))
    } else if opcode & 0xE7 == 0xC6 {
        (Op::Dec, addr_mode_from_rmw_mode_x(m2))
    } else if opcode & 0xE7 == 0xE6 {
        (Op::Inc, addr_mode_from_rmw_mode_x(m2))
    } else if opcode == 0x0A {
        (Op::Asl, AddrMode::Accumulator)
    } else if opcode == 0x2A {
        (Op::Rol, AddrMode::Accumulator)
    } else if opcode == 0x4A {
        (Op::Lsr, AddrMode::Accumulator)
    } else if opcode == 0x6A {
        (Op::Ror, AddrMode::Accumulator)
    } else if opcode == 0x8A {
        (Op::Txa, AddrMode::Implied)
    } else if opcode == 0xAA {
        (Op::Tax, AddrMode::Implied)
    } else if opcode == 0xCA {
        (Op::Dex, AddrMode::Implied)
    } else if opcode == 0xEA {
        (Op::Nop(0), AddrMode::Implied)
    } else if opcode & 0x1F == 0x12 {
        (Op::Stp, AddrMode::Implied)
    } else if opcode & 0x1F == 0x1A && h != 4 && h != 5 {
        (Op::Nop(0), AddrMode::Implied)
    } else if opcode == 0x9A {
        (Op::Txs, AddrMode::Implied)
    } else if opcode == 0xBA {
        (Op::Tsx, AddrMode::Implied)
    } else if opcode == 0x9E {
        (Op::Shx, AddrMode::AbsoluteIndexedY)
    } else if opcode & 0xE3 == 0xA3 && m3 != 2 && m3 != 6 {
        (Op::Lax, addr_mode_from_ax_mode(m3))
    } else if opcode & 0xE3 == 0x83 && (m3 == 0 || m3 == 1 || m3 == 3 || m3 == 5) {
        (Op::Sax, addr_mode_from_ax_mode(m3))
    } else if opcode & 0xE3 == 0xC3 && m3 != 2 {
        (Op::Dcp, addr_mode_from_alu_mode(m3))
    } else if opcode & 0xE3 == 0xE3 && m3 != 2 {
        (Op::Isc, addr_mode_from_alu_mode(m3))
    } else if opcode == 0xCB {
        (Op::Axs, AddrMode::Immediate)
    } else if opcode == 0xEB {
        (Op::Sbc, AddrMode::Immediate)
    } else if opcode & 0x03 == 0x03 && h <= 3 && m3 == 2 {
        (Op::Unknown, AddrMode::Implied)
    } else if opcode & 0xE3 == 0x03 {
        (Op::Slo, addr_mode_from_alu_mode(m3))
    } else if opcode & 0xE3 == 0x23 {
        (Op::Rla, addr_mode_from_alu_mode(m3))
    } else if opcode & 0xE3 == 0x43 {
        (Op::Sre, addr_mode_from_alu_mode(m3))
    } else if opcode & 0xE3 == 0x63 {
        (Op::Rra, addr_mode_from_alu_mode(m3))
    } else {
        (Op::Unknown, AddrMode::Implied)
    }
}

// ------------------------------------------------------------ the CPU

pub struct Cpu {
    pub a: u8,
    pub x: u8,
    pub y: u8,
    pub s: u8,
    pub p: u8,
    pub pc: u16,
    pub irq: bool,
    pub halt: bool,
    pub bus: CpuBus,
}

impl View for Cpu {
    type V = CpuView;

    open spec fn view(&self) -> CpuView {
        CpuView {
            a: self.a,
            x: self.x,
            y: self.y,
            s: self.s,
            p: self.p,
            pc: self.pc,
            irq: self.irq,
            halt: self.halt,
            bus: self.bus@,
        }
    }
}

impl Cpu {
    pub open spec fn wf(&self) -> bool {
        self.bus.wf()
    }

    pub fn new(bus: CpuBus) -> (r: Cpu)
        requires
            bus.wf(),
        ensures
            r.wf(),
            r@ == (CpuView {
                a: 0,
                x: 0,
                y: 0,
                s: POWER_ON_STACK,
                p: POWER_ON_STATUS,
                pc: 0,
                irq: false,
                halt: false,
                bus: bus@,
            }),
    {
        Cpu {
            a: 0,
            x: 0,
            y: 0,
            s: POWER_ON_STACK,
            p: POWER_ON_STATUS,
            pc: 0,
            irq: false,
            halt: false,
            bus,
        }
    }

    /// Re-initialises the registers and jumps through the reset vector; memory is kept.
    pub fn reset(&mut self)
        requires
            old(self).wf(),
        ensures
            final(self).wf(),
            ({
                let (target, t) = old(self)@.read_word(RESET_VECTOR);
                final(self)@ == (CpuView {
                    a: 0,
                    x: 0,
                    y: 0,
                    s: POWER_ON_STACK,
                    p: POWER_ON_STATUS,
                    pc: target,
                    halt: false,
                    bus: CpuBusView { stalls: 0, ..t.bus },
                    ..t
                })
            }),
    {
        self.a = 0;
        self.x = 0;
        self.y = 0;
        self.s = POWER_ON_STACK;
        self.p = POWER_ON_STATUS;
        self.halt = false;
        self.pc = self.bus.read_word(RESET_VECTOR);
        self.bus.stalls = 0;
    }

    /// One CPU cycle. An unsupported opcode is reported after it has been
    /// consumed; the machine can go on.
    pub fn tick(&mut self) -> (r: Result<(), NesError>)
        requires
            old(self).wf(),
        ensures
            final(self).wf(),
            final(self)@ == old(self)@.tick(),
            r is Ok <==> old(self)@.tick_ok(),
            r is Err ==> r == Err::<(), NesError>(NesError::UnsupportedOpcode),
    {
        self.bus.cycles = self.bus.cycles.wrapping_add(1);
        self.bus.tick();
        if self.bus.stalls > 0 {
            self.bus.stalls = self.bus.stalls - 1;
            return Ok(());
        }
        self.interrupt();
        if self.halt {
            return Ok(());
        }
        let opcode = self.fetch();
        self.do_mnemonic(opcode)
    }

    fn read(&mut self, addr: u16) -> (r: u8)
        requires
            old(self).wf(),
        ensures
            final(self).wf(),
            (r, final(self)@) == old(self)@.read(addr),
    {
        self.bus.read(addr)
    }

    fn write(&mut self, addr: u16, data: u8)
        requires
            old(self).wf(),
        ensures
            final(self).wf(),
            final(self)@ == old(self)@.write(addr, data),
    {
        self.bus.write(addr, data)
    }

    fn fetch(&mut self) -> (r: u8)
        requires
            old(self).wf(),
        ensures
            final(self).wf(),
            (r, final(self)@) == old(self)@.fetch(),
    {
        let r = self.bus.read(self.pc);
        self.pc = self.pc.wrapping_add(1);
        r
    }

    fn read_operand_addr_zero_page(&mut self, index: u8) -> (r: u16)
        requires
            old(self).wf(),
        ensures
            final(self).wf(),
            (r, final(self)@) == old(self)@.zero_page_operand(index),
    {
        let offset = self.fetch();
        offset.wrapping_add(index) as u16
    }

    fn read_operand_addr_absolute(&mut self, index: u8) -> (r: u16)
        requires
            old(self).wf(),
        ensures
            final(self).wf(),
            (r, final(self)@) == old(self)@.absolute_operand(index),
    {
        let offset = self.bus.read_word(self.pc);
        self.pc = self.pc.wrapping_add(2);
        offset.wrapping_add(index as u16)
    }

    fn read_operand_addr_indirect_page(&mut self, hop_addr: u16) -> (r: u16)
        requires
            old(self).wf(),
        ensures
            final(self).wf(),
            (r, final(self)@) == old(self)@.indirect_page(hop_addr),
    {
        let low = self.read(hop_addr);
        let high = self.read((hop_addr & 0xFF00) | (hop_addr.wrapping_add(1) & 0x00FF));
        high as u16 * 256 + low as u16
    }

    fn read_operand_addr_indirect_zero_page(&mut self, hop_addr: u8) -> (r: u16)
        requires
            old(self).wf(),
        ensures
            final(self).wf(),
            (r, final(self)@) == old(self)@.indirect_zero_page(hop_addr),
    {
        let low = self.read(hop_addr as u16);
        let high = self.read(hop_addr.wrapping_add(1) as u16);
        high as u16 * 256 + low as u16
    }

    fn read_operand_addr(&mut self, mode: AddrMode) -> (r: u16)
        requires
            old(self).wf(),
        ensures
            final(self).wf(),
            (r, final(self)@) == old(self)@.operand(mode),
    {
        match mode {
            AddrMode::Immediate => {
                let addr = self.pc;
                self.pc = self.pc.wrapping_add(1);
                addr
            },
            AddrMode::ZeroPage => self.read_operand_addr_zero_page(0),
            AddrMode::Absolute => self.read_operand_addr_absolute(0),
            AddrMode::Relative => {
                let offset = self.fetch();
                let step: u16 = if offset >= 0x80 {
                    offset as u16 + 0xFF00
                } else {
                    offset as u16
                };
                self.pc.wrapping_add(step)
            },
            AddrMode::Indirect => {
                let hop_addr = self.read_operand_addr_absolute(0);
                self.read_operand_addr_indirect_page(hop_addr)
            },
            AddrMode::ZeroPageIndexedX => self.read_operand_addr_zero_page(self.x),
            AddrMode::ZeroPageIndexedY => self.read_operand_addr_zero_page(self.y),
            AddrMode::AbsoluteIndexedX => self.read_operand_addr_absolute(self.x),
            AddrMode::AbsoluteIndexedY => self.read_operand_addr_absolute(self.y),
            AddrMode::IndexedIndirectX => {
                let offset = self.fetch();
                self.read_operand_addr_indirect_zero_page(offset.wrapping_add(self.x))
            },
            AddrMode::IndirectIndexedY => {
                let offset = self.fetch();
                let addr = self.read_operand_addr_indirect_zero_page(offset);
                addr.wrapping_add(self.y as u16)
            },
            _ => 0,
        }
    }

    fn load(&mut self, mode: AddrMode) -> (r: u8)
        requires
            old(self).wf(),
        ensures
            final(self).wf(),
            (r, final(self)@) == old(self)@.load(mode),
    {
        let addr = self.read_operand_addr(mode);
        self.read(addr)
    }

    fn push_8(&mut self, data: u8)
        requires
            old(self).wf(),
        ensures
            final(self).wf(),
            final(self)@ == old(self)@.push(data),
    {
        self.bus.write(STACK_BASE + self.s as u16, data);
        self.s = self.s.wrapping_sub(1);
    }

    fn pop_8(&mut self) -> (r: u8)
        requires
            old(self).wf(),
        ensures
            final(self).wf(),
            (r, final(self)@) == old(self)@.pop(),
    {
        self.s = self.s.wrapping_add(1);
        self.bus.read(STACK_BASE + self.s as u16)
    }

    fn push_16(&mut self, data: u16)
        requires
            old(self).wf(),
        ensures
            final(self).wf(),
            final(self)@ == old(self)@.push16(data),
    {
        self.push_8((data / 256) as u8);
        self.push_8((data % 256) as u8);
    }

    fn pop_16(&mut self) -> (r: u16)
        requires
            old(self).wf(),
        ensures
            final(self).wf(),
            (r, final(self)@) == old(self)@.pop16(),
    {
        let low = self.pop_8();
        let high = self.pop_8();
        high as u16 * 256 + low as u16
    }

    fn interrupt(&mut self)
        requires
            old(self).wf(),
        ensures
            final(self).wf(),
            final(self)@ == old(self)@.interrupt(),
    {
        if self.bus.nmi() {
            self.push_16(self.pc);
            self.pc = self.bus.read_word(NMI_VECTOR);
            let p = (self.p & !FLAG_BREAK) | FLAG_U;
            self.push_8(p);
            self.p = flag_set(self.p, FLAG_I, true);
        }
        if self.p & FLAG_I == 0 && self.irq {
            self.push_16(self.pc);
            self.pc = self.bus.read_word(IRQ_VECTOR);
            let p = (self.p & !FLAG_BREAK) | FLAG_U;
            self.push_8(p);
            self.p = flag_set(self.p, FLAG_I, true);
        }
    }

    fn do_mnemonic(&mut self, opcode: u8) -> (r: Result<(), NesError>)
        requires
            old(self).wf(),
        ensures
            final(self).wf(),
            final(self)@ == old(self)@.execute(spec_decode(opcode).0, spec_decode(opcode).1),
            r is Ok <==> supported(spec_decode(opcode).0),
            r is Err ==> r == Err::<(), NesError>(NesError::UnsupportedOpcode),
    {
        let (op, mode) = decode(opcode);
        self.execute(op, mode)
    }

    fn apply_read(&mut self, op: Op, m: u8)
        ensures
            final(self)@ == old(self)@.apply_read(op, m),
            final(self).bus == old(self).bus,
    {
        match op {
            Op::Lda => {
                self.a = m;
                self.p = zn(self.p, m);
            },
            Op::Ldx => {
                self.x = m;
                self.p = zn(self.p, m);
            },
            Op::Ldy => {
                self.y = m;
                self.p = zn(self.p, m);
            },
            Op::Lax => {
                self.a = m;
                self.x = m;
                self.p = zn(self.p, m);
            },
            Op::Ora => {
                self.a = self.a | m;
                self.p = zn(self.p, self.a);
            },
            Op::And => {
                self.a = self.a & m;
                self.p = zn(self.p, self.a);
            },
            Op::Eor => {
                self.a = self.a ^ m;
                self.p = zn(self.p, self.a);
            },
            Op::Adc => {
                let (r, c, v) = adc(self.a, m, self.p & FLAG_C != 0);
                self.a = r;
                self.p = flag_set(flag_set(zn(self.p, r), FLAG_V, v), FLAG_C, c);
            },
            Op::Sbc => {
                let (r, c, v) = sbc(self.a, m, self.p & FLAG_C != 0);
                self.a = r;
                self.p = flag_set(flag_set(zn(self.p, r), FLAG_V, v), FLAG_C, c);
            },
            Op::Cmp => {
                self.p = flag_set(zn(self.p, self.a.wrapping_sub(m)), FLAG_C, self.a >= m);
            },
            Op::Cpx => {
                self.p = flag_set(zn(self.p, self.x.wrapping_sub(m)), FLAG_C, self.x >= m);
            },
            Op::Cpy => {
                self.p = flag_set(zn(self.p, self.y.wrapping_sub(m)), FLAG_C, self.y >= m);
            },
            Op::Bit => {
                self.p = flag_set(
                    flag_set(flag_set(self.p, FLAG_Z, self.a & m == 0), FLAG_N, m >= 0x80),
                    FLAG_V,
                    m & 0x40 != 0,
                );
            },
            Op::Axs => {
                let left = self.a & self.x;
                let r = left.wrapping_sub(m);
                self.x = r;
                self.p = flag_set(zn(self.p, r), FLAG_C, left >= m);
            },
            _ => {},
        }
    }

    fn shift(&mut self, op: Op, mode: AddrMode)
        requires
            old(self).wf(),
        ensures
            final(self).wf(),
            final(self)@ == old(self)@.shift(op, mode),
    {
        let addr = self.read_operand_addr(mode);
        if mode == AddrMode::Accumulator {
            let (r, c) = shift_value(op, self.a, self.p & FLAG_C != 0);
            self.a = r;
            self.p = flag_set(zn(self.p, r), FLAG_C, c);
        } else {
            let v = self.read(addr);
            let (r, c) = shift_value(op, v, self.p & FLAG_C != 0);
            self.write(addr, r);
            self.p = flag_set(zn(self.p, r), FLAG_C, c);
        }
    }

    fn step_memory(&mut self, op: Op, mode: AddrMode)
        requires
            old(self).wf(),
        ensures
            final(self).wf(),
            final(self)@ == old(self)@.step_memory(op, mode),
    {
        let addr = self.read_operand_addr(mode);
        let v = self.read(addr);
        let r = if op == Op::Inc {
            v.wrapping_add(1)
        } else {
            v.wrapping_sub(1)
        };
        self.write(addr, r);
        self.p = zn(self.p, r);
    }

    fn branch_taken(&self, op: Op) -> (r: bool)
        ensures
            r == self@.branch_taken(op),
    {
        match op {
            Op::Bpl => self.p & FLAG_N == 0,
            Op::Bmi => self.p & FLAG_N != 0,
            Op::Bvc => self.p & FLAG_V == 0,
            Op::Bvs => self.p & FLAG_V != 0,
            Op::Bcc => self.p & FLAG_C == 0,
            Op::Bcs => self.p & FLAG_C != 0,
            Op::Bne => self.p & FLAG_Z == 0,
            _ => self.p & FLAG_Z != 0,
        }
    }

    fn implied(&mut self, op: Op)
        ensures
            final(self)@ == old(self)@.implied(op),
            final(self).bus == old(self).bus,
    {
        match op {
            Op::Clc => self.p = flag_set(self.p, FLAG_C, false),
            Op::Sec => self.p = flag_set(self.p, FLAG_C, true),
            Op::Cli => self.p = flag_set(self.p, FLAG_I, false),
            Op::Sei => self.p = flag_set(self.p, FLAG_I, true),
            Op::Clv => self.p = flag_set(self.p, FLAG_V, false),
            Op::Cld => self.p = flag_set(self.p, FLAG_D, false),
            Op::Sed => self.p = flag_set(self.p, FLAG_D, true),
            Op::Tax => {
                self.x = self.a;
                self.p = zn(self.p, self.x);
            },
            Op::Txa => {
                self.a = self.x;
                self.p = zn(self.p, self.a);
            },
            Op::Tay => {
                self.y = self.a;
                self.p = zn(self.p, self.y);
            },
            Op::Tya => {
                self.a = self.y;
                self.p = zn(self.p, self.a);
            },
            Op::Tsx => {
                self.x = self.s;
                self.p = zn(self.p, self.x);
            },
            Op::Txs => self.s = self.x,
            Op::Inx => {
                self.x = self.x.wrapping_add(1);
                self.p = zn(self.p, self.x);
            },
            Op::Iny => {
                self.y = self.y.wrapping_add(1);
                self.p = zn(self.p, self.y);
            },
            Op::Dex => {
                self.x = self.x.wrapping_sub(1);
                self.p = zn(self.p, self.x);
            },
            Op::Dey => {
                self.y = self.y.wrapping_sub(1);
                self.p = zn(self.p, self.y);
            },
            Op::Nop(n) => self.pc = self.pc.wrapping_add(n as u16),
            Op::Stp => self.halt = true,
            _ => {},
        }
    }

    fn control(&mut self, op: Op, mode: AddrMode)
        requires
            old(self).wf(),
        ensures
            final(self).wf(),
            final(self)@ == old(self)@.control(op, mode),
    {
        match op {
            Op::Brk => {
                let target = self.bus.read_word(IRQ_VECTOR);
                self.push_16(self.pc.wrapping_add(1));
                self.push_8(self.p | FLAG_BREAK);
                self.p = flag_set(self.p, FLAG_I, true);
                self.pc = target;
            },
            Op::Jsr => {
                let target = self.read_operand_addr(mode);
                self.push_16(self.pc.wrapping_sub(1));
                self.pc = target;
            },
            Op::Rts => {
                let ret = self.pop_16();
                self.pc = ret.wrapping_add(1);
            },
            Op::Rti => {
                let kept = self.p & FLAG_BREAK;
                let v = self.pop_8();
                self.p = (v & !FLAG_BREAK) | kept;
                self.pc = self.pop_16();
            },
            Op::Php => self.push_8(self.p | FLAG_BREAK),
            Op::Plp => {
                let kept = self.p & FLAG_BREAK;
                let v = self.pop_8();
                self.p = (v & !FLAG_BREAK) | kept;
            },
            Op::Pha => self.push_8(self.a),
            Op::Pla => {
                self.a = self.pop_8();
                self.p = zn(self.p, self.a);
            },
            _ => {
                self.pc = self.read_operand_addr(mode);
            },
        }
    }

    fn combined(&mut self, op: Op, mode: AddrMode)
        requires
            old(self).wf(),
        ensures
            final(self).wf(),
            final(self)@ == old(self)@.combined(op, mode),
    {
        let pc = self.pc;
        match op {
            Op::Dcp => self.step_memory(Op::Dec, mode),
            Op::Isc => self.step_memory(Op::Inc, mode),
            Op::Slo => self.shift(Op::Asl, mode),
            Op::Rla => self.shift(Op::Rol, mode),
            Op::Sre => self.shift(Op::Lsr, mode),
            _ => self.shift(Op::Ror, mode),
        }
        let second = match op {
            Op::Dcp => Op::Cmp,
            Op::Isc => Op::Sbc,
            Op::Slo => Op::Ora,
            Op::Rla => Op::And,
            Op::Sre => Op::Eor,
            _ => Op::Adc,
        };
        self.pc = pc;
        let m = self.load(mode);
        self.apply_read(second, m);
    }

    #[verifier::rlimit(60)]
    fn execute(&mut self, op: Op, mode: AddrMode) -> (r: Result<(), NesError>)
        requires
            old(self).wf(),
        ensures
            final(self).wf(),
            final(self)@ == old(self)@.execute(op, mode),
            r is Ok <==> supported(op),
            r is Err ==> r == Err::<(), NesError>(NesError::UnsupportedOpcode),
    {
        match op {
            Op::Lda | Op::Ldx | Op::Ldy | Op::Lax | Op::Ora | Op::And | Op::Eor | Op::Adc | Op::Sbc
            | Op::Cmp | Op::Cpx | Op::Cpy | Op::Bit | Op::Axs => {
                let m = self.load(mode);
                self.apply_read(op, m);
            },
            Op::Sta | Op::Stx | Op::Sty | Op::Sax => {
                let data = match op {
                    Op::Sta => self.a,
                    Op::Stx => self.x,
                    Op::Sty => self.y,
                    _ => self.a & self.x,
                };
                let addr = self.read_operand_addr(mode);
                self.write(addr, data);
            },
            Op::Asl | Op::Lsr | Op::Rol | Op::Ror => self.shift(op, mode),
            Op::Inc | Op::Dec => self.step_memory(op, mode),
            Op::Bpl | Op::Bmi | Op::Bvc | Op::Bvs | Op::Bcc | Op::Bcs | Op::Bne | Op::Beq => {
                let taken = self.branch_taken(op);
                let target = self.read_operand_addr(mode);
                if taken {
                    self.pc = target;
                }
            },
            Op::Brk | Op::Jsr | Op::Rts | Op::Rti | Op::Php | Op::Plp | Op::Pha | Op::Pla
            | Op::Jmp => self.control(op, mode),
            Op::Dcp | Op::Isc | Op::Slo | Op::Rla | Op::Sre | Op::Rra => self.combined(op, mode),
            Op::Shx | Op::Shy | Op::Unknown => {
                return Err(NesError::UnsupportedOpcode);
            },
            _ => self.implied(op),
        }
        Ok(())
    }
}

} // verus!
