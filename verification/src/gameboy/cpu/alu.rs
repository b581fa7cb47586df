use vstd::prelude::*;

use crate::gameboy::cpu::bits::{lemma_byte, lemma_shifts, lemma_sra, lemma_word};
use crate::gameboy::cpu::semantics::{
    alu_adc,
    alu_add,
    alu_and,
    alu_cp,
    alu_or,
    alu_sbc,
    alu_sub,
    alu_xor,
    add_hl,
    bit_flags,
    dec_flags,
    dec_value,
    inc_flags,
    inc_value,
    jump_ok,
    jump_target,
    res_value,
    set_value,
    shift_flags,
    shift_value,
};
use crate::gameboy::cpu::Cpu;
use crate::gameboy::registers::Registers;

verus! {

impl Cpu {
    /// ADD A, `b`.
    pub(super) fn add(&mut self, b: u8)
        ensures
            *final(self) == old(self).with_registers(alu_add(old(self).registers, b)),
    {
        let a1 = self.registers.a;
        proof {
            lemma_byte(a1);
            lemma_byte(b);
            lemma_byte(((a1 & 0x0F) + (b & 0x0F)) as u8);
        }
        self.registers.a = a1.wrapping_add(b);

        self.registers.flags.zero = self.registers.a == 0x00;
        self.registers.flags.negative = false;
        self.registers.flags.half_carry = ((a1 & 0x0F) + (b & 0x0F)) & 0x10 == 0x10;
        self.registers.flags.carry = (a1 as u16) + (b as u16) > 0xFF;
    }

    /// ADC A, `b`; `a` is the value of A.
    pub(super) fn adc(&mut self, a: u8, b: u8)
        requires
            a == old(self).registers.a,
        ensures
            *final(self) == old(self).with_registers(alu_adc(old(self).registers, b)),
    {
        let carry: u8 = if self.registers.flags.carry {
            0x01
        } else {
            0x00
        };

        let result = a.wrapping_add(b).wrapping_add(carry);
        proof {
            lemma_byte(a);
            lemma_byte(b);
            lemma_byte(result);
        }

        self.registers.flags.half_carry = (a & 0x0F) + (b & 0x0F) + carry > 0x0F;
        self.registers.flags.negative = false;
        self.registers.flags.zero = result & 0xFF == 0x00;
        self.registers.flags.carry = (a as u16) + (b as u16) + (carry as u16) > 0xFF;

        self.registers.a = result as u8;
    }

    /// SUB `b`.
    pub(super) fn sub(&mut self, b: u8)
        ensures
            *final(self) == old(self).with_registers(alu_sub(old(self).registers, b)),
    {
        proof {
            lemma_byte(self.registers.a);
            lemma_byte(b);
        }
        let r = self.registers.a.wrapping_sub(b);

        self.registers.flags.zero = r == 0x00;
        self.registers.flags.negative = true;
        self.registers.flags.half_carry = (self.registers.a & 0x0F) < (b & 0x0F);
        self.registers.flags.carry = self.registers.a < b;

        self.registers.a = r;
    }

    /// SBC A, `b`.
    pub(super) fn sbc(&mut self, b: u8)
        ensures
            *final(self) == old(self).with_registers(alu_sbc(old(self).registers, b)),
    {
        let a = self.registers.a;
        let carry: u8 = if self.registers.flags.carry {
            0x01
        } else {
            0x00
        };

        let result = a.wrapping_sub(b).wrapping_sub(carry);
        proof {
            lemma_byte(a);
            lemma_byte(b);
            lemma_byte(result);
        }

        self.registers.flags.half_carry = (a & 0x0F) < (b & 0x0F) + carry;
        self.registers.flags.negative = true;
        self.registers.flags.zero = result & 0xFF == 0x00;
        self.registers.flags.carry = (a as u16) < b as u16 + carry as u16;

        self.registers.a = result as u8;
    }

    /// AND `b`.
    pub(super) fn and(&mut self, b: u8)
        ensures
            *final(self) == old(self).with_registers(alu_and(old(self).registers, b)),
    {
        let r = self.registers.a & b;

        self.registers.a = r;
        self.registers.flags.zero = r == 0x00;
        self.registers.flags.negative = false;
        self.registers.flags.half_carry = true;
        self.registers.flags.carry = false;
    }

    /// XOR `b`.
    pub(super) fn xor(&mut self, b: u8)
        ensures
            *final(self) == old(self).with_registers(alu_xor(old(self).registers, b)),
    {
        self.registers.a ^= b;
        self.registers.flags.zero = self.registers.a == 0x00;
        self.registers.flags.negative = false;
        self.registers.flags.half_carry = false;
        self.registers.flags.carry = false;
    }

    /// OR `b`.
    pub(super) fn or(&mut self, b: u8)
        ensures
            *final(self) == old(self).with_registers(alu_or(old(self).registers, b)),
    {
        self.registers.a |= b;

        self.registers.flags.zero = self.registers.a == 0x00;
        self.registers.flags.negative = false;
        self.registers.flags.half_carry = false;
        self.registers.flags.carry = false;
    }

    /// CP `b`.
    pub(super) fn cp(&mut self, b: u8)
        ensures
            *final(self) == old(self).with_registers(alu_cp(old(self).registers, b)),
    {
        proof {
            lemma_byte(self.registers.a);
            lemma_byte(b);
        }
        let r = self.registers.a.wrapping_sub(b);

        self.registers.flags.zero = r == 0x00;
        self.registers.flags.negative = true;
        self.registers.flags.half_carry = (self.registers.a & 0x0F) < (b & 0x0F);
        self.registers.flags.carry = self.registers.a < b;
    }

    /// The flags of INC for the value `r`, which it returns incremented.
    pub(super) fn inc(&mut self, r: u8) -> (v: u8)
        ensures
            v == inc_value(r),
            *final(self) == old(self).with_registers(inc_flags(old(self).registers, r)),
    {
        proof {
            lemma_byte(r);
        }
        let v = r.wrapping_add(0x01);

        self.registers.flags.zero = v == 0x00;
        self.registers.flags.negative = false;
        self.registers.flags.half_carry = (r & 0x0F) + 0x01 > 0x0F;
        v
    }

    /// The flags of DEC for the value `r`, which it returns decremented.
    pub(super) fn dec(&mut self, r: u8) -> (v: u8)
        ensures
            v == dec_value(r),
            *final(self) == old(self).with_registers(dec_flags(old(self).registers, r)),
    {
        proof {
            lemma_byte(r);
        }
        let v = r.wrapping_sub(0x01);

        self.registers.flags.zero = v == 0x00;
        self.registers.flags.negative = true;
        self.registers.flags.half_carry = (r & 0x0F) == 0x00;
        v
    }

    /// ADD HL, `v`.
    pub(super) fn add_hl(&mut self, v: u16)
        ensures
            *final(self) == old(self).with_registers(add_hl(old(self).registers, v)),
    {
        let ghost before = self.registers;
        let hl = self.registers.get_hl();
        proof {
            lemma_word(hl);
            lemma_word(v);
        }

        let r = hl.wrapping_add(v);
        assert(r == ((before.hl() + v) % 0x10000) as u16);

        self.registers.set_hl(r);
        assert(self.registers == before.with_hl(r));
        self.registers.flags.half_carry = ((hl & 0x07FF) + (v & 0x07FF)) > 0x07FF;
        self.registers.flags.negative = false;
        self.registers.flags.carry = hl > 0xFFFF - v;
    }

    /// RLC of `b`: sets the flags and returns the result.
    pub(super) fn rlc(&mut self, b: u8) -> (v: u8)
        ensures
            v == shift_value(0, b, old(self).registers.flags.carry),
            *final(self) == old(self).with_registers(shift_flags(old(self).registers, 0, b)),
    {
        proof {
            lemma_byte(b);
            lemma_shifts(b);
        }
        let carry = if b & 0x80 == 0x80 {
            true
        } else {
            false
        };
        let v = (b << 1u8) | if carry {
            0x01
        } else {
            0x00
        };

        self.registers.flags.zero = v == 0x00;
        self.registers.flags.negative = false;
        self.registers.flags.half_carry = false;
        self.registers.flags.carry = carry;

        v
    }

    /// RRC of `b`: sets the flags and returns the result.
    pub(super) fn rrc(&mut self, b: u8) -> (v: u8)
        ensures
            v == shift_value(1, b, old(self).registers.flags.carry),
            *final(self) == old(self).with_registers(shift_flags(old(self).registers, 1, b)),
    {
        proof {
            lemma_byte(b);
            lemma_shifts(b);
        }
        let carry = if b & 0x01 == 0x01 {
            true
        } else {
            false
        };
        let v = (b >> 1u8) | if carry {
            0x80
        } else {
            0x00
        };

        self.registers.flags.zero = v == 0x00;
        self.registers.flags.negative = false;
        self.registers.flags.half_carry = false;
        self.registers.flags.carry = carry;

        v
    }

    /// RL of `b` through the carry: sets the flags and returns the result.
    pub(super) fn rl(&mut self, b: u8) -> (v: u8)
        ensures
            v == shift_value(2, b, old(self).registers.flags.carry),
            *final(self) == old(self).with_registers(shift_flags(old(self).registers, 2, b)),
    {
        proof {
            lemma_byte(b);
            lemma_shifts(b);
        }
        let old_carry: u8 = if self.registers.flags.carry {
            0x01
        } else {
            0x00
        };
        self.registers.flags.carry = b & 0x80 == 0x80;
        let v = (b << 1u8) | old_carry;

        self.registers.flags.negative = false;
        self.registers.flags.half_carry = false;
        self.registers.flags.zero = v == 0x00;

        v
    }

    /// RR of `b` through the carry: sets the flags and returns the result.
    pub(super) fn rr(&mut self, b: u8) -> (v: u8)
        ensures
            v == shift_value(3, b, old(self).registers.flags.carry),
            *final(self) == old(self).with_registers(shift_flags(old(self).registers, 3, b)),
    {
        proof {
            lemma_byte(b);
            lemma_shifts(b);
        }
        let old_carry: u8 = if self.registers.flags.carry {
            0x80
        } else {
            0x00
        };
        self.registers.flags.carry = b & 0x01 == 0x01;
        let v = (b >> 1u8) | old_carry;

        self.registers.flags.negative = false;
        self.registers.flags.half_carry = false;
        self.registers.flags.zero = v == 0x00;

        v
    }

    /// SLA of `b`: sets the flags and returns the result.
    pub(super) fn sla(&mut self, b: u8) -> (v: u8)
        ensures
            v == shift_value(4, b, old(self).registers.flags.carry),
            *final(self) == old(self).with_registers(shift_flags(old(self).registers, 4, b)),
    {
        proof {
            lemma_byte(b);
            lemma_shifts(b);
        }
        let carry = b & 0x80 == 0x80;
        let v = b << 1u8;

        self.registers.flags.zero = v == 0x00;
        self.registers.flags.negative = false;
        self.registers.flags.half_carry = false;
        self.registers.flags.carry = carry;

        v
    }

    /// SRA of `b`, which keeps the sign bit: sets the flags and returns the result.
    pub(super) fn sra(&mut self, b: u8) -> (v: u8)
        ensures
            v == shift_value(5, b, old(self).registers.flags.carry),
            *final(self) == old(self).with_registers(shift_flags(old(self).registers, 5, b)),
    {
        proof {
            lemma_byte(b);
            lemma_sra(b);
        }
        let carry = if b & 0x01 == 0x01 {
            true
        } else {
            false
        };
        let v = ((b as i8) >> 1u8) as u8;

        self.registers.flags.zero = v == 0x00;
        self.registers.flags.negative = false;
        self.registers.flags.half_carry = false;
        self.registers.flags.carry = carry;

        v
    }

    /// SWAP of the nibbles of `b`: sets the flags and returns the result.
    pub(super) fn swap(&mut self, b: u8) -> (v: u8)
        ensures
            v == shift_value(6, b, old(self).registers.flags.carry),
            *final(self) == old(self).with_registers(shift_flags(old(self).registers, 6, b)),
    {
        proof {
            lemma_byte(b);
            lemma_shifts(b);
        }
        let result = (b >> 4u8) | (b << 4u8);

        self.registers.flags.zero = result == 0x00;
        self.registers.flags.negative = false;
        self.registers.flags.half_carry = false;
        self.registers.flags.carry = false;

        result
    }

    /// SRL of `b`: sets the flags and returns the result.
    pub(super) fn srl(&mut self, b: u8) -> (v: u8)
        ensures
            v == shift_value(7, b, old(self).registers.flags.carry),
            *final(self) == old(self).with_registers(shift_flags(old(self).registers, 7, b)),
    {
        proof {
            lemma_byte(b);
            lemma_shifts(b);
        }
        let carry = b & 0x01 == 0x01;
        let v = b >> 1u8;

        self.registers.flags.zero = v == 0x00;
        self.registers.flags.negative = false;
        self.registers.flags.half_carry = false;
        self.registers.flags.carry = carry;

        v
    }

    /// BIT `n`, `b`: the flags of a test of bit `n` of `b`.
    pub(super) fn bit(&mut self, b: u8, n: u8)
        requires
            n < 8,
        ensures
            *final(self) == old(self).with_registers(bit_flags(old(self).registers, b, n as int)),
    {
        let shift: u8 = 0x01 << n;
        let bit = if b & shift == shift {
            true
        } else {
            false
        };

        self.registers.flags.zero = !bit;
        self.registers.flags.negative = false;
        self.registers.flags.half_carry = true;
    }

    /// `b` with bit `n` cleared.
    pub(super) fn res(&mut self, b: u8, n: u8) -> (v: u8)
        requires
            n < 8,
        ensures
            v == res_value(b, n as int),
            *final(self) == *old(self),
    {
        let shift: u8 = 0x01 << n;
        let mut v = b;
        v &= !shift;

        v
    }

    /// `b` with bit `n` set.
    pub(super) fn set(&mut self, b: u8, n: u8) -> (v: u8)
        requires
            n < 8,
        ensures
            v == set_value(b, n as int),
            *final(self) == *old(self),
    {
        let shift: u8 = 0x01 << n;
        let mut v = b;
        v |= shift;

        v
    }

    /// Moves the program counter by `offset`, read as a two's complement byte.
    pub(super) fn relative_jump(&mut self, offset: u8)
        requires
            jump_ok(old(self).registers.pc, offset),
        ensures
            *final(self) == old(self).with_registers(
                Registers { pc: jump_target(old(self).registers.pc, offset), ..old(self).registers },
            ),
    {
        proof {
            lemma_byte(offset);
        }
        // If the sign bit is there, move the PC back by the difference
        // between 256 and the offset
        if offset & 0x80 == 0x80 {
            self.registers.pc -= 0x100 - offset as u16;
        } else {
            self.registers.pc += offset as u16;
        }
    }
}

} // verus!
