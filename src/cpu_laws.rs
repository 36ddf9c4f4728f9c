//! Properties of the CPU's instruction semantics, proved over the spec
//! functions that the executable code is verified against.

use vstd::prelude::*;

use crate::bus::word;
use crate::bus::{WRAM_LEN, cpu_fold};
use crate::cpu::{
    flag, indirect_high_addr, set_flag, spec_adc, spec_sbc, spec_shift, with_zn, AddrMode, CpuView, Op,
    FLAG_C, FLAG_I, FLAG_N, FLAG_V, FLAG_Z, NMI_VECTOR, STACK_BASE,
};

verus! {

/// Z tells whether the result is zero, N copies its bit 7; setting V or C afterwards keeps both.
pub proof fn lemma_zn(p: u8, v: u8, on_v: bool, on_c: bool)
    ensures
        flag(with_zn(p, v), FLAG_Z) == (v == 0),
        flag(with_zn(p, v), FLAG_N) == (v >= 0x80),
        flag(set_flag(set_flag(with_zn(p, v), FLAG_V, on_v), FLAG_C, on_c), FLAG_Z) == (v == 0),
        flag(set_flag(set_flag(with_zn(p, v), FLAG_V, on_v), FLAG_C, on_c), FLAG_N) == (v >= 0x80),
        flag(set_flag(with_zn(p, v), FLAG_C, on_c), FLAG_Z) == (v == 0),
        flag(set_flag(with_zn(p, v), FLAG_C, on_c), FLAG_N) == (v >= 0x80),
{
    assert(((((p | 2u8) & !0x80u8) & 2u8) != 0) && ((((p & !2u8) | 0x80u8) & 0x80u8) != 0))
        by (bit_vector);
    assert(forall|q: u8, z: bool, n: bool|
        #![auto]
        (set_flag(set_flag(q, FLAG_Z, z), FLAG_N, n) & FLAG_Z != 0) == z
            && (set_flag(set_flag(q, FLAG_Z, z), FLAG_N, n) & FLAG_N != 0) == n) by (bit_vector);
    assert(forall|q: u8, a: bool, b: bool|
        #![auto]
        (set_flag(set_flag(q, FLAG_V, a), FLAG_C, b) & FLAG_Z) == (q & FLAG_Z)
            && (set_flag(set_flag(q, FLAG_V, a), FLAG_C, b) & FLAG_N) == (q & FLAG_N)
            && (set_flag(q, FLAG_C, b) & FLAG_Z) == (q & FLAG_Z)
            && (set_flag(q, FLAG_C, b) & FLAG_N) == (q & FLAG_N)) by (bit_vector);
}

/// After every instruction that reads an operand into A, X or Y, Z and N describe that register.
pub proof fn lemma_flags_follow_loaded(v: CpuView, op: Op, m: u8)
    ensures
        op == Op::Lda || op == Op::Lax || op == Op::Ora || op == Op::And || op == Op::Eor || op
            == Op::Adc || op == Op::Sbc ==> flag(v.apply_read(op, m).p, FLAG_Z) == (v.apply_read(
            op,
            m,
        ).a == 0) && flag(v.apply_read(op, m).p, FLAG_N) == (v.apply_read(op, m).a >= 0x80),
        op == Op::Ldx || op == Op::Lax || op == Op::Axs ==> flag(v.apply_read(op, m).p, FLAG_Z) == (
        v.apply_read(op, m).x == 0) && flag(v.apply_read(op, m).p, FLAG_N) == (v.apply_read(
            op,
            m,
        ).x >= 0x80),
        op == Op::Ldy ==> flag(v.apply_read(op, m).p, FLAG_Z) == (v.apply_read(op, m).y == 0)
            && flag(v.apply_read(op, m).p, FLAG_N) == (v.apply_read(op, m).y >= 0x80),
{
    let r = v.apply_read(op, m);
    let c = flag(v.p, FLAG_C);
    lemma_zn(v.p, r.a, spec_adc(v.a, m, c).2, spec_adc(v.a, m, c).1);
    lemma_zn(v.p, r.a, spec_sbc(v.a, m, c).2, spec_sbc(v.a, m, c).1);
    lemma_zn(v.p, r.x, false, v.a & v.x >= m);
    lemma_zn(v.p, r.y, false, false);
}

/// After every transfer, increment and decrement of a register, Z and N describe its new value.
pub proof fn lemma_flags_follow_register(v: CpuView, op: Op)
    ensures
        op == Op::Txa || op == Op::Tya ==> flag(v.implied(op).p, FLAG_Z) == (v.implied(op).a == 0)
            && flag(v.implied(op).p, FLAG_N) == (v.implied(op).a >= 0x80),
        op == Op::Tax || op == Op::Tsx || op == Op::Inx || op == Op::Dex ==> flag(
            v.implied(op).p,
            FLAG_Z,
        ) == (v.implied(op).x == 0) && flag(v.implied(op).p, FLAG_N) == (v.implied(op).x >= 0x80),
        op == Op::Tay || op == Op::Iny || op == Op::Dey ==> flag(v.implied(op).p, FLAG_Z) == (
        v.implied(op).y == 0) && flag(v.implied(op).p, FLAG_N) == (v.implied(op).y >= 0x80),
{
    let r = v.implied(op);
    lemma_zn(v.p, r.a, false, false);
    lemma_zn(v.p, r.x, false, false);
    lemma_zn(v.p, r.y, false, false);
}

/// After INC, DEC and the shifts, Z and N describe the value written back to memory or A.
pub proof fn lemma_flags_follow_modified(v: CpuView, op: Op, mode: AddrMode)
    ensures
        ({
            let (addr, t) = v.operand(mode);
            let (m, u) = t.read(addr);
            let r = if op == Op::Inc { m.wrapping_add(1) } else { m.wrapping_sub(1) };
            flag(v.step_memory(op, mode).p, FLAG_Z) == (r == 0) && flag(
                v.step_memory(op, mode).p,
                FLAG_N,
            ) == (r >= 0x80)
        }),
        ({
            let (addr, t) = v.operand(mode);
            let (m, u) = t.read(addr);
            let r = spec_shift(op, if mode == AddrMode::Accumulator { t.a } else { m }, flag(t.p, FLAG_C)).0;
            flag(v.shift(op, mode).p, FLAG_Z) == (r == 0) && flag(v.shift(op, mode).p, FLAG_N) == (r
                >= 0x80)
        }),
        mode == AddrMode::Accumulator ==> v.shift(op, mode).a == spec_shift(
            op,
            v.a,
            flag(v.p, FLAG_C),
        ).0,
{
    let (addr, t) = v.operand(mode);
    let (m, u) = t.read(addr);
    let r = if op == Op::Inc { m.wrapping_add(1) } else { m.wrapping_sub(1) };
    lemma_zn(u.write(addr, r).p, r, false, false);
    let c = flag(t.p, FLAG_C);
    let sa = spec_shift(op, t.a, c);
    let sm = spec_shift(op, m, c);
    lemma_zn(t.p, sa.0, false, sa.1);
    lemma_zn(u.write(addr, sm.0).p, sm.0, false, sm.1);
}

/// `PHA; PLA` gives back A and S, with Z and N describing A.
pub proof fn lemma_pha_pla(v: CpuView)
    requires
        v.bus.wram.len() == crate::bus::WRAM_LEN,
    ensures
        v.control(Op::Pha, AddrMode::Implied).control(Op::Pla, AddrMode::Implied).a == v.a,
        v.control(Op::Pha, AddrMode::Implied).control(Op::Pla, AddrMode::Implied).s == v.s,
        v.control(Op::Pha, AddrMode::Implied).control(Op::Pla, AddrMode::Implied).p == with_zn(
            v.p,
            v.a,
        ),
{
}

/// `PHP; PLP` gives back P: the break bits pushed with it are dropped on the way back.
pub proof fn lemma_php_plp(v: CpuView)
    requires
        v.bus.wram.len() == crate::bus::WRAM_LEN,
    ensures
        v.control(Op::Php, AddrMode::Implied).control(Op::Plp, AddrMode::Implied).p == v.p,
        v.control(Op::Php, AddrMode::Implied).control(Op::Plp, AddrMode::Implied).s == v.s,
{
    let p = v.p;
    assert((((p | 0x30u8) & !0x30u8) | (p & 0x30u8)) == p) by (bit_vector);
}

/// `JSR` then `RTS` resumes after the three bytes of the `JSR`; `pc` is the
/// address of its operand, as after the opcode fetch.
#[verifier::rlimit(40)]
pub proof fn lemma_jsr_rts(v: CpuView)
    requires
        v.bus.wram.len() == crate::bus::WRAM_LEN,
    ensures
        v.control(Op::Jsr, AddrMode::Absolute).control(Op::Rts, AddrMode::Implied).pc
            == v.pc.wrapping_add(2),
{
    let (target, t) = v.operand(AddrMode::Absolute);
    let ret = t.pc.wrapping_sub(1);
    let j = v.control(Op::Jsr, AddrMode::Absolute);
    assert(t.pc == v.pc.wrapping_add(2));
    assert(j == CpuView { pc: target, ..t.push16(ret) });
    let hi = (ret / 256) as u8;
    let lo = (ret % 256) as u8;
    assert(word(lo, hi) == ret);
}

/// `JMP ($xxFF)` takes the high byte of its target from `$xx00`.
pub proof fn lemma_indirect_jump_page(ptr: u16)
    requires
        ptr & 0xFF == 0xFF,
    ensures
        indirect_high_addr(ptr) == ptr & 0xFF00,
{
    assert(ptr & 0xFF == 0xFF ==> (ptr & 0xFF00) | (ptr.wrapping_add(1) & 0x00FF) == ptr & 0xFF00)
        by (bit_vector);
}

/// A push with S at zero writes `$0100` and leaves S at `$FF`.
pub proof fn lemma_stack_wrap(v: CpuView, d: u8)
    requires
        v.s == 0,
    ensures
        v.push(d).s == 0xFF,
        v.push(d).bus == v.bus.write(0x0100, d),
{
}

/// Zero-page indexed operands stay in the zero page.
pub proof fn lemma_zero_page_wrap(v: CpuView, index: u8)
    ensures
        v.zero_page_operand(index).0 < 0x100,
        v.zero_page_operand(index).0 == (v.bus.peek(v.pc) + index) % 256,
{
}

/// `execute` on the instructions that read one operand value.
#[verifier::rlimit(60)]
pub proof fn lemma_execute_reads(v: CpuView, op: Op, mode: AddrMode)
    requires
        op == Op::Lda || op == Op::Ldx || op == Op::Ldy || op == Op::Lax || op == Op::Ora || op
            == Op::And || op == Op::Eor || op == Op::Adc || op == Op::Sbc || op == Op::Cmp || op
            == Op::Cpx || op == Op::Cpy || op == Op::Bit || op == Op::Axs,
    ensures
        v.execute(op, mode) == v.load(mode).1.apply_read(op, v.load(mode).0),
{
}

/// `execute` on the stack and jump instructions.
#[verifier::rlimit(60)]
pub proof fn lemma_execute_control(v: CpuView, op: Op, mode: AddrMode)
    requires
        op == Op::Brk || op == Op::Jsr || op == Op::Rts || op == Op::Rti || op == Op::Php || op
            == Op::Plp || op == Op::Pha || op == Op::Pla || op == Op::Jmp,
    ensures
        v.execute(op, mode) == v.control(op, mode),
{
}

/// `execute` on the register-only instructions.
#[verifier::rlimit(60)]
pub proof fn lemma_execute_implied(v: CpuView, op: Op, mode: AddrMode)
    requires
        op == Op::Txa || op == Op::Tya || op == Op::Tax || op == Op::Tay || op == Op::Tsx || op
            == Op::Txs || op == Op::Inx || op == Op::Iny || op == Op::Dex || op == Op::Dey,
    ensures
        v.execute(op, mode) == v.implied(op),
{
}

/// After every instruction that reads its result into A, Z and N describe A.
#[verifier::rlimit(60)]
pub proof fn lemma_execute_flags_a(v: CpuView, op: Op, mode: AddrMode)
    requires
        op == Op::Lda || op == Op::Lax || op == Op::Ora || op == Op::And || op == Op::Eor || op
            == Op::Adc || op == Op::Sbc,
    ensures
        flag(v.execute(op, mode).p, FLAG_Z) == (v.execute(op, mode).a == 0),
        flag(v.execute(op, mode).p, FLAG_N) == (v.execute(op, mode).a >= 0x80),
{
    lemma_execute_reads(v, op, mode);
    let (m, t) = v.load(mode);
    lemma_flags_follow_loaded(t, op, m);
}

/// After TXA and TYA, Z and N describe A.
#[verifier::rlimit(60)]
pub proof fn lemma_execute_flags_a_moved(v: CpuView, op: Op, mode: AddrMode)
    requires
        op == Op::Txa || op == Op::Tya,
    ensures
        flag(v.execute(op, mode).p, FLAG_Z) == (v.execute(op, mode).a == 0),
        flag(v.execute(op, mode).p, FLAG_N) == (v.execute(op, mode).a >= 0x80),
{
    lemma_execute_implied(v, op, mode);
    lemma_flags_follow_register(v, op);
}

/// After every instruction that leaves its result in X or Y, Z and N describe it.
pub proof fn lemma_execute_flags_xy(v: CpuView, op: Op, mode: AddrMode)
    ensures
        op == Op::Ldx || op == Op::Lax || op == Op::Axs || op == Op::Tax || op == Op::Tsx || op
            == Op::Inx || op == Op::Dex ==> flag(v.execute(op, mode).p, FLAG_Z) == (v.execute(
            op,
            mode,
        ).x == 0) && flag(v.execute(op, mode).p, FLAG_N) == (v.execute(op, mode).x >= 0x80),
        op == Op::Ldy || op == Op::Tay || op == Op::Iny || op == Op::Dey ==> flag(
            v.execute(op, mode).p,
            FLAG_Z,
        ) == (v.execute(op, mode).y == 0) && flag(v.execute(op, mode).p, FLAG_N) == (v.execute(
            op,
            mode,
        ).y >= 0x80),
{
    if op == Op::Ldx || op == Op::Lax || op == Op::Axs || op == Op::Ldy {
        lemma_execute_reads(v, op, mode);
        let (m, t) = v.load(mode);
        lemma_flags_follow_loaded(t, op, m);
    } else if op == Op::Tax || op == Op::Tsx || op == Op::Inx || op == Op::Dex || op == Op::Tay
        || op == Op::Iny || op == Op::Dey {
        lemma_execute_implied(v, op, mode);
        lemma_flags_follow_register(v, op);
    }
}

/// `PHA; PLA` as executed: A and S come back, Z and N describe A.
pub proof fn lemma_execute_pha_pla(v: CpuView)
    requires
        v.bus.wram.len() == WRAM_LEN,
    ensures
        v.execute(Op::Pha, AddrMode::Implied).execute(Op::Pla, AddrMode::Implied).a == v.a,
        v.execute(Op::Pha, AddrMode::Implied).execute(Op::Pla, AddrMode::Implied).s == v.s,
        v.execute(Op::Pha, AddrMode::Implied).execute(Op::Pla, AddrMode::Implied).p == with_zn(
            v.p,
            v.a,
        ),
{
    lemma_execute_control(v, Op::Pha, AddrMode::Implied);
    let t = v.execute(Op::Pha, AddrMode::Implied);
    lemma_execute_control(t, Op::Pla, AddrMode::Implied);
    lemma_pha_pla(v);
}

/// `PHP; PLP` as executed: P and S come back.
pub proof fn lemma_execute_php_plp(v: CpuView)
    requires
        v.bus.wram.len() == WRAM_LEN,
    ensures
        v.execute(Op::Php, AddrMode::Implied).execute(Op::Plp, AddrMode::Implied).p == v.p,
        v.execute(Op::Php, AddrMode::Implied).execute(Op::Plp, AddrMode::Implied).s == v.s,
{
    lemma_execute_control(v, Op::Php, AddrMode::Implied);
    let t = v.execute(Op::Php, AddrMode::Implied);
    lemma_execute_control(t, Op::Plp, AddrMode::Implied);
    lemma_php_plp(v);
}

/// `JSR` then `RTS` as executed: PC resumes after the three bytes of the `JSR`.
pub proof fn lemma_execute_jsr_rts(v: CpuView)
    requires
        v.bus.wram.len() == WRAM_LEN,
    ensures
        v.execute(Op::Jsr, AddrMode::Absolute).execute(Op::Rts, AddrMode::Implied).pc
            == v.pc.wrapping_add(2),
{
    lemma_execute_control(v, Op::Jsr, AddrMode::Absolute);
    let t = v.execute(Op::Jsr, AddrMode::Absolute);
    lemma_execute_control(t, Op::Rts, AddrMode::Implied);
    lemma_jsr_rts(v);
}

/// The state after `n` CPU cycles.
pub open spec fn run(v: CpuView, n: nat) -> CpuView
    decreases n,
{
    if n == 0 {
        v
    } else {
        run(v.tick(), (n - 1) as nat)
    }
}

/// With `n` stall cycles owed and no DMA pending, the next `n` cycles run no
/// instruction: registers and PC stay, and the stall count reaches zero.
pub proof fn lemma_stall_cycles(v: CpuView, n: nat)
    requires
        v.bus.stalls == n,
        v.bus.ppu.bus.request is None,
    ensures
        run(v, n).a == v.a,
        run(v, n).x == v.x,
        run(v, n).y == v.y,
        run(v, n).s == v.s,
        run(v, n).p == v.p,
        run(v, n).pc == v.pc,
        run(v, n).bus.stalls == 0,
        run(v, n).bus.ppu.bus.request is None,
    decreases n,
{
    if n > 0 {
        lemma_stall_cycles(v.tick(), (n - 1) as nat);
    }
}

/// Taking an NMI pushes PC (high byte first) and P with B clear and U set,
/// sets I, clears the request and jumps through `$FFFA`.
pub proof fn lemma_nmi_entry(v: CpuView)
    requires
        v.bus.ppu.nmi,
        v.bus.wram.len() == WRAM_LEN,
    ensures
        v.interrupt().bus.wram[STACK_BASE + v.s] == (v.pc / 256) as u8,
        v.interrupt().bus.wram[STACK_BASE + v.s.wrapping_sub(1)] == (v.pc % 256) as u8,
        v.interrupt().bus.wram[STACK_BASE + v.s.wrapping_sub(2)] == (v.p & !0x30u8) | 0x20u8,
        v.interrupt().s == v.s.wrapping_sub(3),
        flag(v.interrupt().p, FLAG_I),
        v.interrupt().pc == word(v.bus.peek(NMI_VECTOR), v.bus.peek(0xFFFB)),
        !v.interrupt().bus.ppu.nmi,
{
    let p = v.p;
    assert(((p | 4u8) & 4u8) != 0) by (bit_vector);
    assert(cpu_fold((STACK_BASE + v.s) as u16) == STACK_BASE + v.s);
    assert(cpu_fold((STACK_BASE + v.s.wrapping_sub(1)) as u16) == STACK_BASE + v.s.wrapping_sub(1));
    assert(cpu_fold((STACK_BASE + v.s.wrapping_sub(2)) as u16) == STACK_BASE + v.s.wrapping_sub(2));
}
} // verus!
