use vstd::arithmetic::div_mod::lemma_fundamental_div_mod_converse;
use vstd::prelude::*;

use crate::gameboy::cpu::semantics::{
    alu_add,
    alu_cp,
    alu_sub,
    call,
    cpl,
    daa,
    execute,
    dec_value,
    inc_value,
    interrupt_vector,
    interrupts,
    pending,
    pop_ok,
    pop_value,
    popped,
    push,
    push_ok,
    reg8,
    ret,
    shift_carry,
    shift_reg,
    shift_value,
    sp16,
    step_cycles,
    step_next,
    with_reg8,
};
use crate::gameboy::cpu::Cpu;
use crate::gameboy::interconnect::{lemma_write16_read16, reads_back16, InterconnectView};
use crate::gameboy::irq::{lemma_interrupt_bits, Interrupt, Irq};
use crate::gameboy::opcodes::{mentions, spec_base_opcode, Operand};
use crate::gameboy::registers::Registers;

verus! {

/// A value pushed where the stack reads back (see `reads_back16`) is what
/// the next pop reads, and the pop brings the stack pointer back to where it
/// was.
pub proof fn lemma_push_pop(c: Cpu, m: InterconnectView, v: u16)
    requires
        m.wf(),
        push_ok(c.registers, m),
        reads_back16(m, ((c.registers.sp - 2) as usize) as u16),
    ensures
        ({
            let (c2, m2) = push(c, m, v);
            &&& pop_ok(c2.registers, m2)
            &&& pop_value(c2.registers, m2) == v
            &&& popped(c2.registers).sp == c.registers.sp
        }),
{
    let (c2, m2) = push(c, m, v);
    let a = sp16(c2.registers);
    assert(a == ((c.registers.sp - 2) as usize) as u16);
    lemma_write16_read16(m, a, v);
}

/// A CALL followed by a RET, with the stack where it reads back, comes back
/// to the address after the call with the stack pointer as before.
pub proof fn lemma_call_ret(c: Cpu, m: InterconnectView, addr: u16)
    requires
        m.wf(),
        push_ok(c.registers, m),
        reads_back16(m, ((c.registers.sp - 2) as usize) as u16),
    ensures
        ({
            let (c2, m2) = call(c, m, addr);
            &&& c2.registers.pc == addr
            &&& pop_ok(c2.registers, m2)
            &&& ret(c2, m2).registers.pc == c.registers.pc
            &&& ret(c2, m2).registers.sp == c.registers.sp
        }),
{
    lemma_push_pop(c, m, c.registers.pc);
}

/// With the master enable set and no LoadGame request, servicing the
/// pending interrupt of highest priority jumps to its vector, clears the
/// master enable and its request, and returns 0x0C.
pub proof fn lemma_interrupt_service(c: Cpu, m: InterconnectView, kind: Interrupt)
    requires
        m.wf(),
        m.irq.enabled,
        !m.irq.spec_requested(Interrupt::LoadGame),
        pending(m.irq) == Some(kind),
        push_ok(c.registers, m),
    ensures
        ({
            let (c2, m2, v) = interrupts(c, m);
            &&& v == 0x0C
            &&& c2.registers.pc == interrupt_vector(kind)
            &&& !m2.irq.enabled
            &&& !m2.irq.spec_requested(kind)
        }),
{
    reveal(interrupts);
    assert(kind.supported());
    crate::gameboy::irq::lemma_unrequest_clears_only_its_bit(
        m.irq,
        kind,
        kind,
    );
}

/// A halted cpu idles: a step changes nothing and takes one cycle.
pub proof fn lemma_halted_step(c: Cpu, m: InterconnectView)
    requires
        c.halted,
    ensures
        step_next(c, m) == (c, m),
        step_cycles(c, m) == Some(1u8),
{
    reveal(step_next);
    reveal(step_cycles);
}

/// A step at an opcode the CPU does not define changes nothing and has no
/// cycle count, so `step` reports an error.
pub proof fn lemma_undefined_opcode(c: Cpu, m: InterconnectView)
    requires
        !c.halted,
        spec_base_opcode(m.read_u8(c.registers.pc)) is None,
    ensures
        step_next(c, m) == (c, m),
        step_cycles(c, m) is None,
{
    reveal(step_next);
    reveal(step_cycles);
}

/// Writing an 8-bit register and reading it back gives the value written.
pub proof fn lemma_reg8_write_read(r: Registers, i: int, v: u8)
    ensures
        reg8(with_reg8(r, i, v), i) == v,
{
}

/// Subtracting a value from A and adding it back restores A.
pub proof fn lemma_sub_add(r: Registers, v: u8)
    ensures
        alu_add(alu_sub(r, v), v).a == r.a,
{
}

/// Incrementing and decrementing undo each other.
pub proof fn lemma_inc_dec(v: u8)
    ensures
        dec_value(inc_value(v)) == v,
        inc_value(dec_value(v)) == v,
{
}

/// CPL twice leaves A as it was.
pub proof fn lemma_cpl_twice(r: Registers)
    ensures
        cpl(cpl(r)).a == r.a,
{
    let a = r.a;
    assert(!(!a) == a) by (bit_vector);
}

/// SWAP twice, and RRC after RLC, leave a byte as it was; RR undoes RL when
/// the carry that RL set is fed back.
pub proof fn lemma_rotations_undo(v: u8, carry: bool)
    ensures
        shift_value(6, shift_value(6, v, carry), carry) == v,
        shift_value(1, shift_value(0, v, carry), carry) == v,
        shift_value(3, shift_value(2, v, carry), v >= 128) == v,
{
}

/// CP sets the flags as SUB does and leaves A; SUB stores A - v modulo 256.
pub proof fn lemma_cp_is_sub_without_store(r: Registers, v: u8)
    ensures
        alu_cp(r, v).a == r.a,
        alu_cp(r, v).flags == alu_sub(r, v).flags,
        alu_sub(r, v).a == (r.a - v + 256) % 256,
{
}

/// A rotation or shift of a register stores the shifted value in it and
/// sets the carry to the bit shifted out.
proof fn lemma_shift_reg_parts(r: Registers, op: int, i: int)
    requires
        0 <= i < 8,
        i != 6,
    ensures
        reg8(shift_reg(r, op, i), i) == shift_value(op, reg8(r, i), r.flags.carry),
        shift_reg(r, op, i).flags.carry == shift_carry(op, reg8(r, i)),
{
}

/// RR of a register right after RL of it gives the register and the carry
/// back.
pub proof fn lemma_rl_rr(r: Registers, i: int)
    requires
        0 <= i < 8,
        i != 6,
    ensures
        reg8(shift_reg(shift_reg(r, 2, i), 3, i), i) == reg8(r, i),
        shift_reg(shift_reg(r, 2, i), 3, i).flags.carry == r.flags.carry,
{
    let v = reg8(r, i);
    let c = r.flags.carry;
    let r1 = shift_reg(r, 2, i);
    lemma_shift_reg_parts(r, 2, i);
    lemma_shift_reg_parts(r1, 3, i);
    lemma_rotations_undo(v, c);
    let w = shift_value(2, v, c);
    assert(shift_carry(3, w) == c);
}

/// With the master enable on and no LoadGame request, servicing goes by the
/// bits set in both IE and IF: the lowest such bit `k` among bits 0 to 4 is
/// served by a call of vector 0x40 + 8k; its bit of IF is cleared, the master
/// enable switched off, IE kept, the return address pushed, and 0x0C returned.
pub proof fn lemma_service_by_bits(c: Cpu, m: InterconnectView, k: u8)
    requires
        m.irq.enabled,
        m.irq.request_flag & 0x20 == 0,
        k < 5,
        m.irq.request_flag & m.irq.enable_flag & (1u8 << k) != 0,
        forall|j: u8| j < k ==> m.irq.request_flag & m.irq.enable_flag & (1u8 << j) == 0,
    ensures
        ({
            let (c2, m2, v) = interrupts(c, m);
            &&& v == 0x0C
            &&& c2.registers.pc == 0x40 + 8 * k
            &&& c2.registers.sp == (c.registers.sp - 2) as usize
            &&& m2.irq == (Irq {
                request_flag: m.irq.request_flag & !(1u8 << k),
                enable_flag: m.irq.enable_flag,
                enabled: false,
            })
            &&& m2 == m.with_irq(m2.irq).write_u16(((c.registers.sp - 2) as usize) as u16, c.registers.pc)
        }),
{
    reveal(interrupts);
    let r = m.irq.request_flag;
    let e = m.irq.enable_flag;
    lemma_interrupt_bits(m.irq);
    assert((r & 0x20 == 0 ==> r & 0x20 != 0x20) && 1u8 << 0u8 == 0x01 && 1u8 << 1u8 == 0x02 && 1u8
        << 2u8 == 0x04 && 1u8 << 3u8 == 0x08 && 1u8 << 4u8 == 0x10 && r & !0x01u8 == r & 0xFE && r
        & !0x02u8 == r & 0xFD && r & !0x04u8 == r & 0xFB && r & !0x08u8 == r & 0xF7 && r & !0x10u8 == r
        & 0xEF) by (bit_vector);
    if k >= 1 {
        assert(r & e & (1u8 << 0u8) == 0);
    }
    if k >= 2 {
        assert(r & e & (1u8 << 1u8) == 0);
    }
    if k >= 3 {
        assert(r & e & (1u8 << 2u8) == 0);
    }
    if k >= 4 {
        assert(r & e & (1u8 << 3u8) == 0);
    }
    let (c2, m2, v) = interrupts(c, m);
    let a = ((c.registers.sp - 2) as usize) as u16;
    assert(m2 =~= m.with_irq(m2.irq).write_u16(a, c.registers.pc));
}

/// With the master enable on, no LoadGame request and no bit among bits 0 to
/// 4 set in both IE and IF, servicing changes nothing and returns 0.
pub proof fn lemma_no_interrupt_due(c: Cpu, m: InterconnectView)
    requires
        m.irq.request_flag & 0x20 == 0,
        m.irq.request_flag & m.irq.enable_flag & 0x1F == 0,
    ensures
        interrupts(c, m) == (c, m, 0u8),
{
    reveal(interrupts);
    let r = m.irq.request_flag;
    let e = m.irq.enable_flag;
    lemma_interrupt_bits(m.irq);
    assert((r & 0x20 == 0 ==> r & 0x20 != 0x20) && (r & e & 0x1F == 0 ==> r & e & 0x01 == 0 && r & e & 0x02 == 0 && r & e & 0x04 == 0 && r & e
        & 0x08 == 0 && r & e & 0x10 == 0)) by (bit_vector);
}

/// `text` names HL stepped by one in the direction that `up` gives: it says
/// "HLI" when HL goes up and "HLD" when it goes down, and not the other.
proof fn lemma_hl_text(text: &str, up: bool)
    requires
        text@ == (if up { "LD (HLI), A"@ } else { "LD (HLD), A"@ }) || text@ == (if up {
            "LD A, (HLI)"@
        } else {
            "LD A, (HLD)"@
        }),
    ensures
        mentions(text@, "HLI"@) == up,
        mentions(text@, "HLD"@) == !up,
{
    reveal_strlit("LD (HLI), A");
    reveal_strlit("LD (HLD), A");
    reveal_strlit("LD A, (HLI)");
    reveal_strlit("LD A, (HLD)");
    reveal_strlit("HLI");
    reveal_strlit("HLD");
    let s = text@;
    let (yes, no) = if up { ("HLI"@, "HLD"@) } else { ("HLD"@, "HLI"@) };
    let at: int = if s[4] == 'H' { 4 } else { 7 };
    assert(s.subrange(at, at + 3) =~= yes);
    if mentions(s, no) {
        let i = choose|i: int| 0 <= i && i + no.len() <= s.len() && #[trigger] s.subrange(i, i + no.len()) == no;
        assert(s.subrange(i, i + 3)[0] == no[0]);
        assert(s.subrange(i, i + 3)[2] == no[2]);
    }
}

/// The loads through HL that step it are named by what they do: the text of
/// 0x22, 0x2A, 0x32 and 0x3A says "HLI" exactly when the instruction leaves HL
/// one higher and "HLD" exactly when it leaves HL one lower; the ones that
/// store A store it at HL as it was before. (At the ends of the address
/// space, where the step would leave 16 bits, the CPU does not run them.)
pub proof fn lemma_hl_step_names(code: u8, c: Cpu, m: InterconnectView, o: Operand)
    requires
        code == 0x22 || code == 0x2A || code == 0x32 || code == 0x3A,
        1 <= c.registers.hl() < 0xFFFF,
    ensures
        spec_base_opcode(code) is Some,
        ({
            let text = spec_base_opcode(code)->0.mnemonic@;
            let (c2, m2) = execute(code, c, m, o);
            &&& mentions(text, "HLI"@) == (c2.registers.hl() == c.registers.hl() + 1)
            &&& mentions(text, "HLD"@) == (c2.registers.hl() == c.registers.hl() - 1)
            &&& (code == 0x22 || code == 0x32) ==> m2 == m.write_u8(c.registers.hl(), c.registers.a)
        }),
{
    let op = spec_base_opcode(code)->0;
    lemma_hl_text(op.mnemonic, code == 0x22 || code == 0x2A);
    let r = c.registers;
    let hl = r.hl() as int;
    let v: u16 = if code == 0x22 || code == 0x2A { (hl + 1) as u16 } else { (hl - 1) as u16 };
    assert(r.with_hl(v).hl() == v);
}

/// The value of a byte read as two decimal digits.
pub open spec fn bcd_value(b: u8) -> int {
    (b / 16) * 10 + b % 16
}

/// Whether both nibbles of `b` are decimal digits.
pub open spec fn is_bcd(b: u8) -> bool {
    b / 16 <= 9 && b % 16 <= 9
}

proof fn lemma_decimal_correction(a1: int, a0: int, v1: int, v0: int)
    requires
        0 <= a1 <= 9,
        0 <= a0 <= 9,
        0 <= v1 <= 9,
        0 <= v0 <= 9,
    ensures
        ({
            let s = (a1 + v1) * 16 + a0 + v0;
            let x = s % 256;
            let up = x > 0x99 || s > 255;
            let res = (x + (if up { 0x60int } else { 0 }) + (if x % 16 > 9 || a0 + v0 > 15 {
                0x06int
            } else {
                0
            })) % 256;
            let sum = a1 * 10 + a0 + v1 * 10 + v0;
            &&& res / 16 <= 9
            &&& res % 16 <= 9
            &&& (res / 16) * 10 + res % 16 == sum % 100
            &&& up == (sum >= 100)
        }),
{
    let lo = a0 + v0;
    let hi = a1 + v1;
    let s = hi * 16 + lo;
    let x = s % 256;
    if s < 256 {
        lemma_fundamental_div_mod_converse(s, 256, 0, s);
    } else {
        lemma_fundamental_div_mod_converse(s, 256, 1, s - 256);
    }
    let k = if lo <= 15 { lo } else { lo - 16 };
    if s < 256 {
        if lo <= 15 {
            lemma_fundamental_div_mod_converse(x, 16, hi, lo);
        } else {
            lemma_fundamental_div_mod_converse(x, 16, hi + 1, lo - 16);
        }
    } else {
        if lo <= 15 {
            lemma_fundamental_div_mod_converse(x, 16, hi - 16, lo);
        } else {
            lemma_fundamental_div_mod_converse(x, 16, hi - 15, lo - 16);
        }
    }
    assert(x % 16 == k);
    let up = x > 0x99 || s > 255;
    let low_fix = x % 16 > 9 || lo > 15;
    assert(low_fix == (lo >= 10));
    let inner = x + (if up { 0x60int } else { 0 }) + (if low_fix { 0x06int } else { 0 });
    let res = inner % 256;
    if lo <= 9 {
        assert(up == (hi >= 10));
        if hi <= 9 {
            lemma_fundamental_div_mod_converse(inner, 256, 0, s);
            lemma_fundamental_div_mod_converse(res, 16, hi, lo);
        } else {
            let t = (hi - 10) * 16 + lo;
            if s < 256 {
                lemma_fundamental_div_mod_converse(inner, 256, 1, t);
            } else {
                lemma_fundamental_div_mod_converse(inner, 256, 0, t);
            }
            lemma_fundamental_div_mod_converse(res, 16, hi - 10, lo);
        }
    } else {
        assert(up == (hi >= 9));
        if hi <= 8 {
            let t = (hi + 1) * 16 + lo - 10;
            lemma_fundamental_div_mod_converse(inner, 256, 0, t);
            lemma_fundamental_div_mod_converse(res, 16, hi + 1, lo - 10);
        } else {
            let t = (hi - 9) * 16 + lo - 10;
            if s < 256 {
                lemma_fundamental_div_mod_converse(inner, 256, 1, t);
            } else {
                lemma_fundamental_div_mod_converse(inner, 256, 0, t);
            }
            lemma_fundamental_div_mod_converse(res, 16, hi - 9, lo - 10);
        }
    }
}

/// DAA after adding two packed decimal numbers gives their decimal sum: A
/// holds the two low digits of the sum, and C is set exactly when the sum
/// reaches 100.
pub proof fn lemma_daa_after_add(r: Registers, v: u8)
    requires
        is_bcd(r.a),
        is_bcd(v),
    ensures
        ({
            let d = daa(alu_add(r, v));
            let sum = bcd_value(r.a) + bcd_value(v);
            &&& is_bcd(d.a)
            &&& bcd_value(d.a) == sum % 100
            &&& d.flags.carry == (sum >= 100)
        }),
{
    let a1 = (r.a / 16) as int;
    let a0 = (r.a % 16) as int;
    let v1 = (v / 16) as int;
    let v0 = (v % 16) as int;
    lemma_decimal_correction(a1, a0, v1, v0);
    assert(r.a + v == (a1 + v1) * 16 + a0 + v0);
}

proof fn lemma_decimal_borrow(a1: int, a0: int, v1: int, v0: int)
    requires
        0 <= a1 <= 9,
        0 <= a0 <= 9,
        0 <= v1 <= 9,
        0 <= v0 <= 9,
    ensures
        ({
            let s = (a1 - v1) * 16 + a0 - v0;
            let x = (s + 256) % 256;
            let down = s < 0;
            let res = (x - ((if down { 0x60int } else { 0 }) + (if a0 < v0 { 0x06int } else { 0 }))
                + 256) % 256;
            let diff = a1 * 10 + a0 - (v1 * 10 + v0);
            &&& res / 16 <= 9
            &&& res % 16 <= 9
            &&& (res / 16) * 10 + res % 16 == (diff + 100) % 100
            &&& down == (diff < 0)
        }),
{
    let lo = a0 - v0;
    let hi = a1 - v1;
    let s = hi * 16 + lo;
    let diff = hi * 10 + lo;
    let x = (s + 256) % 256;
    if s >= 0 {
        lemma_fundamental_div_mod_converse(s + 256, 256, 1, s);
    } else {
        lemma_fundamental_div_mod_converse(s + 256, 256, 0, s + 256);
    }
    let cf = (if s < 0 { 0x60int } else { 0 }) + (if lo < 0 { 0x06int } else { 0 });
    let inner = x - cf + 256;
    let res = inner % 256;
    if lo >= 0 && hi >= 0 {
        lemma_fundamental_div_mod_converse(inner, 256, 1, s);
        lemma_fundamental_div_mod_converse(res, 16, hi, lo);
        lemma_fundamental_div_mod_converse(diff + 100, 100, 1, diff);
    } else if lo < 0 && hi >= 1 {
        lemma_fundamental_div_mod_converse(inner, 256, 1, s - 6);
        lemma_fundamental_div_mod_converse(res, 16, hi - 1, lo + 10);
        lemma_fundamental_div_mod_converse(diff + 100, 100, 1, diff);
    } else if lo < 0 {
        lemma_fundamental_div_mod_converse(inner, 256, 1, s + 256 - 0x66);
        lemma_fundamental_div_mod_converse(res, 16, hi + 9, lo + 10);
        lemma_fundamental_div_mod_converse(diff + 100, 100, 0, diff + 100);
    } else {
        lemma_fundamental_div_mod_converse(inner, 256, 1, s + 256 - 0x60);
        lemma_fundamental_div_mod_converse(res, 16, hi + 10, lo);
        lemma_fundamental_div_mod_converse(diff + 100, 100, 0, diff + 100);
    }
}

/// DAA after subtracting two packed decimal numbers gives their decimal
/// difference: A holds the two low digits of the difference, taken modulo
/// 100, and C is set exactly when the subtraction borrowed.
pub proof fn lemma_daa_after_sub(r: Registers, v: u8)
    requires
        is_bcd(r.a),
        is_bcd(v),
    ensures
        ({
            let d = daa(alu_sub(r, v));
            let diff = bcd_value(r.a) - bcd_value(v);
            &&& is_bcd(d.a)
            &&& bcd_value(d.a) == (diff + 100) % 100
            &&& d.flags.carry == (diff < 0)
        }),
{
    let a1 = (r.a / 16) as int;
    let a0 = (r.a % 16) as int;
    let v1 = (v / 16) as int;
    let v0 = (v % 16) as int;
    lemma_decimal_borrow(a1, a0, v1, v0);
    assert(r.a - v == (a1 - v1) * 16 + a0 - v0);
}

} // verus!
