use vstd::prelude::*;

use crate::gameboy::cpu::semantics::{execute, execute_cb, execute_cb_ok, execute_ok, operand_fits};
use crate::gameboy::cpu::Cpu;
use crate::gameboy::interconnect::Interconnect;
use crate::gameboy::opcodes::Operand;

verus! {

impl Cpu {
    /// Runs the unprefixed instruction `code` (not the prefix 0xCB) with
    /// `operand`, once the program counter has moved past it.
    pub(super) fn execute_opcode(&mut self, code: u8, operand: &Operand, interconnect: &mut Interconnect)
        requires
            code != 0xCB,
            old(interconnect)@.wf(),
            operand_fits(code, *operand),
            execute_ok(code, old(self).registers, old(interconnect)@, *operand),
        ensures
            (*final(self), final(interconnect)@) == execute(code, *old(self), old(interconnect)@, *operand),
            final(interconnect)@.wf(),
    {
        if code < 0x08 {
            self.execute_00_07(code, operand, interconnect);
        } else if code < 0x10 {
            self.execute_08_0f(code, operand, interconnect);
        } else if code < 0x18 {
            self.execute_10_17(code, operand, interconnect);
        } else if code < 0x20 {
            self.execute_18_1f(code, operand, interconnect);
        } else if code < 0x28 {
            self.execute_20_27(code, operand, interconnect);
        } else if code < 0x30 {
            self.execute_28_2f(code, operand, interconnect);
        } else if code < 0x38 {
            self.execute_30_37(code, operand, interconnect);
        } else if code < 0x40 {
            self.execute_38_3f(code, operand, interconnect);
        } else if code < 0x48 {
            self.execute_40_47(code, operand, interconnect);
        } else if code < 0x50 {
            self.execute_48_4f(code, operand, interconnect);
        } else if code < 0x58 {
            self.execute_50_57(code, operand, interconnect);
        } else if code < 0x60 {
            self.execute_58_5f(code, operand, interconnect);
        } else if code < 0x68 {
            self.execute_60_67(code, operand, interconnect);
        } else if code < 0x70 {
            self.execute_68_6f(code, operand, interconnect);
        } else if code < 0x78 {
            self.execute_70_77(code, operand, interconnect);
        } else if code < 0x80 {
            self.execute_78_7f(code, operand, interconnect);
        } else if code < 0x88 {
            self.execute_80_87(code, operand, interconnect);
        } else if code < 0x90 {
            self.execute_88_8f(code, operand, interconnect);
        } else if code < 0x98 {
            self.execute_90_97(code, operand, interconnect);
        } else if code < 0xA0 {
            self.execute_98_9f(code, operand, interconnect);
        } else if code < 0xA8 {
            self.execute_a0_a7(code, operand, interconnect);
        } else if code < 0xB0 {
            self.execute_a8_af(code, operand, interconnect);
        } else if code < 0xB8 {
            self.execute_b0_b7(code, operand, interconnect);
        } else if code < 0xC0 {
            self.execute_b8_bf(code, operand, interconnect);
        } else if code < 0xC8 {
            self.execute_c0_c7(code, operand, interconnect);
        } else if code < 0xD0 {
            self.execute_c8_cf(code, operand, interconnect);
        } else if code < 0xD8 {
            self.execute_d0_d7(code, operand, interconnect);
        } else if code < 0xE0 {
            self.execute_d8_df(code, operand, interconnect);
        } else if code < 0xE8 {
            self.execute_e0_e7(code, operand, interconnect);
        } else if code < 0xF0 {
            self.execute_e8_ef(code, operand, interconnect);
        } else if code < 0xF8 {
            self.execute_f0_f7(code, operand, interconnect);
        } else {
            self.execute_f8_ff(code, operand, interconnect);
        }
    }

    /// Runs the prefixed instruction `code`, once the program counter has
    /// moved past it.
    pub(super) fn execute_cb_opcode(&mut self, code: u8, interconnect: &mut Interconnect)
        requires
            old(interconnect)@.wf(),
            execute_cb_ok(code, old(self).registers, old(interconnect)@),
        ensures
            (*final(self), final(interconnect)@) == execute_cb(code, *old(self), old(interconnect)@),
            final(interconnect)@.wf(),
    {
        if code < 0x08 {
            self.execute_cb_00_07(code, interconnect);
        } else if code < 0x10 {
            self.execute_cb_08_0f(code, interconnect);
        } else if code < 0x18 {
            self.execute_cb_10_17(code, interconnect);
        } else if code < 0x20 {
            self.execute_cb_18_1f(code, interconnect);
        } else if code < 0x28 {
            self.execute_cb_20_27(code, interconnect);
        } else if code < 0x30 {
            self.execute_cb_28_2f(code, interconnect);
        } else if code < 0x38 {
            self.execute_cb_30_37(code, interconnect);
        } else if code < 0x40 {
            self.execute_cb_38_3f(code, interconnect);
        } else if code < 0x48 {
            self.execute_cb_40_47(code, interconnect);
        } else if code < 0x50 {
            self.execute_cb_48_4f(code, interconnect);
        } else if code < 0x58 {
            self.execute_cb_50_57(code, interconnect);
        } else if code < 0x60 {
            self.execute_cb_58_5f(code, interconnect);
        } else if code < 0x68 {
            self.execute_cb_60_67(code, interconnect);
        } else if code < 0x70 {
            self.execute_cb_68_6f(code, interconnect);
        } else if code < 0x78 {
            self.execute_cb_70_77(code, interconnect);
        } else if code < 0x80 {
            self.execute_cb_78_7f(code, interconnect);
        } else if code < 0x88 {
            self.execute_cb_80_87(code, interconnect);
        } else if code < 0x90 {
            self.execute_cb_88_8f(code, interconnect);
        } else if code < 0x98 {
            self.execute_cb_90_97(code, interconnect);
        } else if code < 0xA0 {
            self.execute_cb_98_9f(code, interconnect);
        } else if code < 0xA8 {
            self.execute_cb_a0_a7(code, interconnect);
        } else if code < 0xB0 {
            self.execute_cb_a8_af(code, interconnect);
        } else if code < 0xB8 {
            self.execute_cb_b0_b7(code, interconnect);
        } else if code < 0xC0 {
            self.execute_cb_b8_bf(code, interconnect);
        } else if code < 0xC8 {
            self.execute_cb_c0_c7(code, interconnect);
        } else if code < 0xD0 {
            self.execute_cb_c8_cf(code, interconnect);
        } else if code < 0xD8 {
            self.execute_cb_d0_d7(code, interconnect);
        } else if code < 0xE0 {
            self.execute_cb_d8_df(code, interconnect);
        } else if code < 0xE8 {
            self.execute_cb_e0_e7(code, interconnect);
        } else if code < 0xF0 {
            self.execute_cb_e8_ef(code, interconnect);
        } else if code < 0xF8 {
            self.execute_cb_f0_f7(code, interconnect);
        } else {
            self.execute_cb_f8_ff(code, interconnect);
        }
    }

    /// Runs the unprefixed instruction `code`, one of 0x00 to 0x07.
    fn execute_00_07(&mut self, code: u8, operand: &Operand, interconnect: &mut Interconnect)
        requires
            0x00 <= code <= 0x07,
            code != 0xCB,
            old(interconnect)@.wf(),
            operand_fits(code, *operand),
            execute_ok(code, old(self).registers, old(interconnect)@, *operand),
        ensures
            (*final(self), final(interconnect)@) == execute(code, *old(self), old(interconnect)@, *operand),
            final(interconnect)@.wf(),
    {
        match code {
            0x00 => (),
            0x01 => self.ld_bc_imm16(operand),
            0x02 => self.ld_bc_a(interconnect),
            0x03 => self.inc_bc(),
            0x04 => self.inc_b(),
            0x05 => self.dec_b(),
            0x06 => self.ld_b_imm8(operand),
            0x07 => self.rlca(),
            _ => (),
        }
    }

    /// Runs the unprefixed instruction `code`, one of 0x08 to 0x0F.
    fn execute_08_0f(&mut self, code: u8, operand: &Operand, interconnect: &mut Interconnect)
        requires
            0x08 <= code <= 0x0F,
            code != 0xCB,
            old(interconnect)@.wf(),
            operand_fits(code, *operand),
            execute_ok(code, old(self).registers, old(interconnect)@, *operand),
        ensures
            (*final(self), final(interconnect)@) == execute(code, *old(self), old(interconnect)@, *operand),
            final(interconnect)@.wf(),
    {
        match code {
            0x08 => self.ld_imm16_ptr_sp(operand, interconnect),
            0x09 => self.add_hl_bc(),
            0x0A => self.ld_a_bc(interconnect),
            0x0B => self.dec_bc(),
            0x0C => self.inc_c(),
            0x0D => self.dec_c(),
            0x0E => self.ld_c_imm8(operand),
            0x0F => self.rrca(),
            _ => (),
        }
    }

    /// Runs the unprefixed instruction `code`, one of 0x10 to 0x17.
    fn execute_10_17(&mut self, code: u8, operand: &Operand, interconnect: &mut Interconnect)
        requires
            0x10 <= code <= 0x17,
            code != 0xCB,
            old(interconnect)@.wf(),
            operand_fits(code, *operand),
            execute_ok(code, old(self).registers, old(interconnect)@, *operand),
        ensures
            (*final(self), final(interconnect)@) == execute(code, *old(self), old(interconnect)@, *operand),
            final(interconnect)@.wf(),
    {
        match code {
            0x10 => self.halt(), // We're emulating hardware... just HALT instead of STOP,
            0x11 => self.ld_de_imm16(operand),
            0x12 => self.ld_de_a(interconnect),
            0x13 => self.inc_de(),
            0x14 => self.inc_d(),
            0x15 => self.dec_d(),
            0x16 => self.ld_d_imm8(operand),
            0x17 => self.rla(),
            _ => (),
        }
    }

    /// Runs the unprefixed instruction `code`, one of 0x18 to 0x1F.
    fn execute_18_1f(&mut self, code: u8, operand: &Operand, interconnect: &mut Interconnect)
        requires
            0x18 <= code <= 0x1F,
            code != 0xCB,
            old(interconnect)@.wf(),
            operand_fits(code, *operand),
            execute_ok(code, old(self).registers, old(interconnect)@, *operand),
        ensures
            (*final(self), final(interconnect)@) == execute(code, *old(self), old(interconnect)@, *operand),
            final(interconnect)@.wf(),
    {
        match code {
            0x18 => self.jp_imm8(operand),
            0x19 => self.add_hl_de(),
            0x1A => self.ld_a_de(interconnect),
            0x1B => self.dec_de(),
            0x1C => self.inc_e(),
            0x1D => self.dec_e(),
            0x1E => self.ld_e_imm8(operand),
            0x1F => self.rra(),
            _ => (),
        }
    }

    /// Runs the unprefixed instruction `code`, one of 0x20 to 0x27.
    fn execute_20_27(&mut self, code: u8, operand: &Operand, interconnect: &mut Interconnect)
        requires
            0x20 <= code <= 0x27,
            code != 0xCB,
            old(interconnect)@.wf(),
            operand_fits(code, *operand),
            execute_ok(code, old(self).registers, old(interconnect)@, *operand),
        ensures
            (*final(self), final(interconnect)@) == execute(code, *old(self), old(interconnect)@, *operand),
            final(interconnect)@.wf(),
    {
        match code {
            0x20 => self.jr_nz_imm8(operand),
            0x21 => self.ld_hl_imm16(operand),
            0x22 => self.ld_hli_a(interconnect),
            0x23 => self.inc_hl(),
            0x24 => self.inc_h(),
            0x25 => self.dec_h(),
            0x26 => self.ld_h_imm8(operand),
            0x27 => self.daa(),
            _ => (),
        }
    }

    /// Runs the unprefixed instruction `code`, one of 0x28 to 0x2F.
    fn execute_28_2f(&mut self, code: u8, operand: &Operand, interconnect: &mut Interconnect)
        requires
            0x28 <= code <= 0x2F,
            code != 0xCB,
            old(interconnect)@.wf(),
            operand_fits(code, *operand),
            execute_ok(code, old(self).registers, old(interconnect)@, *operand),
        ensures
            (*final(self), final(interconnect)@) == execute(code, *old(self), old(interconnect)@, *operand),
            final(interconnect)@.wf(),
    {
        match code {
            0x28 => self.jr_z_imm8(operand),
            0x29 => self.add_hl_hl(),
            0x2A => self.ld_a_hli(interconnect),
            0x2B => self.dec_hl(),
            0x2C => self.inc_l(),
            0x2D => self.dec_l(),
            0x2E => self.ld_l_imm8(operand),
            0x2F => self.cpl(),
            _ => (),
        }
    }

    /// Runs the unprefixed instruction `code`, one of 0x30 to 0x37.
    fn execute_30_37(&mut self, code: u8, operand: &Operand, interconnect: &mut Interconnect)
        requires
            0x30 <= code <= 0x37,
            code != 0xCB,
            old(interconnect)@.wf(),
            operand_fits(code, *operand),
            execute_ok(code, old(self).registers, old(interconnect)@, *operand),
        ensures
            (*final(self), final(interconnect)@) == execute(code, *old(self), old(interconnect)@, *operand),
            final(interconnect)@.wf(),
    {
        match code {
            0x30 => self.jr_nc_imm8(operand),
            0x31 => self.ld_sp_imm16(operand),
            0x32 => self.ld_hld_a(interconnect),
            0x33 => self.inc_sp(),
            0x34 => self.inc_hl_ptr(interconnect),
            0x35 => self.dec_hl_ptr(interconnect),
            0x36 => self.ld_hl_imm8(operand, interconnect),
            0x37 => self.scf(),
            _ => (),
        }
    }

    /// Runs the unprefixed instruction `code`, one of 0x38 to 0x3F.
    fn execute_38_3f(&mut self, code: u8, operand: &Operand, interconnect: &mut Interconnect)
        requires
            0x38 <= code <= 0x3F,
            code != 0xCB,
            old(interconnect)@.wf(),
            operand_fits(code, *operand),
            execute_ok(code, old(self).registers, old(interconnect)@, *operand),
        ensures
            (*final(self), final(interconnect)@) == execute(code, *old(self), old(interconnect)@, *operand),
            final(interconnect)@.wf(),
    {
        match code {
            0x38 => self.jr_c_imm8(operand),
            0x39 => self.add_hl_sp(),
            0x3A => self.ld_a_hld(interconnect),
            0x3B => self.dec_sp(),
            0x3C => self.inc_a(),
            0x3D => self.dec_a(),
            0x3E => self.ld_a_imm8(operand),
            0x3F => self.ccf(),
            _ => (),
        }
    }

    /// Runs the unprefixed instruction `code`, one of 0x40 to 0x47.
    fn execute_40_47(&mut self, code: u8, operand: &Operand, interconnect: &mut Interconnect)
        requires
            0x40 <= code <= 0x47,
            code != 0xCB,
            old(interconnect)@.wf(),
            operand_fits(code, *operand),
            execute_ok(code, old(self).registers, old(interconnect)@, *operand),
        ensures
            (*final(self), final(interconnect)@) == execute(code, *old(self), old(interconnect)@, *operand),
            final(interconnect)@.wf(),
    {
        match code {
            0x40 => (),
            0x41 => self.ld_b_c(),
            0x42 => self.ld_b_d(),
            0x43 => self.ld_b_e(),
            0x44 => self.ld_b_h(),
            0x45 => self.ld_b_l(),
            0x46 => self.ld_b_hl_ptr(interconnect),
            0x47 => self.ld_b_a(),
            _ => (),
        }
    }

    /// Runs the unprefixed instruction `code`, one of 0x48 to 0x4F.
    fn execute_48_4f(&mut self, code: u8, operand: &Operand, interconnect: &mut Interconnect)
        requires
            0x48 <= code <= 0x4F,
            code != 0xCB,
            old(interconnect)@.wf(),
            operand_fits(code, *operand),
            execute_ok(code, old(self).registers, old(interconnect)@, *operand),
        ensures
            (*final(self), final(interconnect)@) == execute(code, *old(self), old(interconnect)@, *operand),
            final(interconnect)@.wf(),
    {
        match code {
            0x48 => self.ld_c_b(),
            0x49 => (),
            0x4A => self.ld_c_d(),
            0x4B => self.ld_c_e(),
            0x4C => self.ld_c_h(),
            0x4D => self.ld_c_l(),
            0x4E => self.ld_c_hl_ptr(interconnect),
            0x4F => self.ld_c_a(),
            _ => (),
        }
    }

    /// Runs the unprefixed instruction `code`, one of 0x50 to 0x57.
    fn execute_50_57(&mut self, code: u8, operand: &Operand, interconnect: &mut Interconnect)
        requires
            0x50 <= code <= 0x57,
            code != 0xCB,
            old(interconnect)@.wf(),
            operand_fits(code, *operand),
            execute_ok(code, old(self).registers, old(interconnect)@, *operand),
        ensures
            (*final(self), final(interconnect)@) == execute(code, *old(self), old(interconnect)@, *operand),
            final(interconnect)@.wf(),
    {
        match code {
            0x50 => self.ld_d_b(),
            0x51 => self.ld_d_c(),
            0x52 => (),
            0x53 => self.ld_d_e(),
            0x54 => self.ld_d_h(),
            0x55 => self.ld_d_l(),
            0x56 => self.ld_d_hl_ptr(interconnect),
            0x57 => self.ld_d_a(),
            _ => (),
        }
    }

    /// Runs the unprefixed instruction `code`, one of 0x58 to 0x5F.
    fn execute_58_5f(&mut self, code: u8, operand: &Operand, interconnect: &mut Interconnect)
        requires
            0x58 <= code <= 0x5F,
            code != 0xCB,
            old(interconnect)@.wf(),
            operand_fits(code, *operand),
            execute_ok(code, old(self).registers, old(interconnect)@, *operand),
        ensures
            (*final(self), final(interconnect)@) == execute(code, *old(self), old(interconnect)@, *operand),
            final(interconnect)@.wf(),
    {
        match code {
            0x58 => self.ld_e_b(),
            0x59 => self.ld_e_c(),
            0x5A => self.ld_e_d(),
            0x5B => (),
            0x5C => self.ld_e_h(),
            0x5D => self.ld_e_l(),
            0x5E => self.ld_e_hl(interconnect),
            0x5F => self.ld_e_a(),
            _ => (),
        }
    }

    /// Runs the unprefixed instruction `code`, one of 0x60 to 0x67.
    fn execute_60_67(&mut self, code: u8, operand: &Operand, interconnect: &mut Interconnect)
        requires
            0x60 <= code <= 0x67,
            code != 0xCB,
            old(interconnect)@.wf(),
            operand_fits(code, *operand),
            execute_ok(code, old(self).registers, old(interconnect)@, *operand),
        ensures
            (*final(self), final(interconnect)@) == execute(code, *old(self), old(interconnect)@, *operand),
            final(interconnect)@.wf(),
    {
        match code {
            0x60 => self.ld_h_b(),
            0x61 => self.ld_h_c(),
            0x62 => self.ld_h_d(),
            0x63 => self.ld_h_e(),
            0x64 => (),
            0x65 => self.ld_h_l(),
            0x66 => self.ld_h_hl_ptr(interconnect),
            0x67 => self.ld_h_a(),
            _ => (),
        }
    }

    /// Runs the unprefixed instruction `code`, one of 0x68 to 0x6F.
    fn execute_68_6f(&mut self, code: u8, operand: &Operand, interconnect: &mut Interconnect)
        requires
            0x68 <= code <= 0x6F,
            code != 0xCB,
            old(interconnect)@.wf(),
            operand_fits(code, *operand),
            execute_ok(code, old(self).registers, old(interconnect)@, *operand),
        ensures
            (*final(self), final(interconnect)@) == execute(code, *old(self), old(interconnect)@, *operand),
            final(interconnect)@.wf(),
    {
        match code {
            0x68 => self.ld_l_b(),
            0x69 => self.ld_l_c(),
            0x6A => self.ld_l_d(),
            0x6B => self.ld_l_e(),
            0x6C => self.ld_l_h(),
            0x6D => (),
            0x6E => self.ld_l_hl(interconnect),
            0x6F => self.ld_l_a(),
            _ => (),
        }
    }

    /// Runs the unprefixed instruction `code`, one of 0x70 to 0x77.
    fn execute_70_77(&mut self, code: u8, operand: &Operand, interconnect: &mut Interconnect)
        requires
            0x70 <= code <= 0x77,
            code != 0xCB,
            old(interconnect)@.wf(),
            operand_fits(code, *operand),
            execute_ok(code, old(self).registers, old(interconnect)@, *operand),
        ensures
            (*final(self), final(interconnect)@) == execute(code, *old(self), old(interconnect)@, *operand),
            final(interconnect)@.wf(),
    {
        match code {
            0x70 => self.ld_hl_ptr_b(interconnect),
            0x71 => self.ld_hl_ptr_c(interconnect),
            0x72 => self.ld_hl_ptr_d(interconnect),
            0x73 => self.ld_hl_ptr_e(interconnect),
            0x74 => self.ld_hl_ptr_h(interconnect),
            0x75 => self.ld_hl_ptr_l(interconnect),
            0x76 => self.halt(),
            0x77 => self.ld_hl_ptr_a(interconnect),
            _ => (),
        }
    }

    /// Runs the unprefixed instruction `code`, one of 0x78 to 0x7F.
    fn execute_78_7f(&mut self, code: u8, operand: &Operand, interconnect: &mut Interconnect)
        requires
            0x78 <= code <= 0x7F,
            code != 0xCB,
            old(interconnect)@.wf(),
            operand_fits(code, *operand),
            execute_ok(code, old(self).registers, old(interconnect)@, *operand),
        ensures
            (*final(self), final(interconnect)@) == execute(code, *old(self), old(interconnect)@, *operand),
            final(interconnect)@.wf(),
    {
        match code {
            0x78 => self.ld_a_b(),
            0x79 => self.ld_a_c(),
            0x7A => self.ld_a_d(),
            0x7B => self.ld_a_e(),
            0x7C => self.ld_a_h(),
            0x7D => self.ld_a_l(),
            0x7E => self.ld_a_hl(interconnect),
            0x7F => (),
            _ => (),
        }
    }

    /// Runs the unprefixed instruction `code`, one of 0x80 to 0x87.
    fn execute_80_87(&mut self, code: u8, operand: &Operand, interconnect: &mut Interconnect)
        requires
            0x80 <= code <= 0x87,
            code != 0xCB,
            old(interconnect)@.wf(),
            operand_fits(code, *operand),
            execute_ok(code, old(self).registers, old(interconnect)@, *operand),
        ensures
            (*final(self), final(interconnect)@) == execute(code, *old(self), old(interconnect)@, *operand),
            final(interconnect)@.wf(),
    {
        match code {
            0x80 => self.add_a_b(),
            0x81 => self.add_a_c(),
            0x82 => self.add_a_d(),
            0x83 => self.add_a_e(),
            0x84 => self.add_a_h(),
            0x85 => self.add_a_l(),
            0x86 => self.add_a_hl_ptr(interconnect),
            0x87 => self.add_a_a(),
            _ => (),
        }
    }

    /// Runs the unprefixed instruction `code`, one of 0x88 to 0x8F.
    fn execute_88_8f(&mut self, code: u8, operand: &Operand, interconnect: &mut Interconnect)
        requires
            0x88 <= code <= 0x8F,
            code != 0xCB,
            old(interconnect)@.wf(),
            operand_fits(code, *operand),
            execute_ok(code, old(self).registers, old(interconnect)@, *operand),
        ensures
            (*final(self), final(interconnect)@) == execute(code, *old(self), old(interconnect)@, *operand),
            final(interconnect)@.wf(),
    {
        match code {
            0x88 => self.adc_a_b(),
            0x89 => self.adc_a_c(),
            0x8A => self.adc_a_d(),
            0x8B => self.adc_a_e(),
            0x8C => self.adc_a_h(),
            0x8D => self.adc_a_l(),
            0x8E => self.adc_a_hl_ptr(interconnect),
            0x8F => self.adc_a_a(),
            _ => (),
        }
    }

    /// Runs the unprefixed instruction `code`, one of 0x90 to 0x97.
    fn execute_90_97(&mut self, code: u8, operand: &Operand, interconnect: &mut Interconnect)
        requires
            0x90 <= code <= 0x97,
            code != 0xCB,
            old(interconnect)@.wf(),
            operand_fits(code, *operand),
            execute_ok(code, old(self).registers, old(interconnect)@, *operand),
        ensures
            (*final(self), final(interconnect)@) == execute(code, *old(self), old(interconnect)@, *operand),
            final(interconnect)@.wf(),
    {
        match code {
            0x90 => self.sub_b(),
            0x91 => self.sub_c(),
            0x92 => self.sub_d(),
            0x93 => self.sub_e(),
            0x94 => self.sub_h(),
            0x95 => self.sub_l(),
            0x96 => self.sub_hl(interconnect),
            0x97 => self.sub_a(),
            _ => (),
        }
    }

    /// Runs the unprefixed instruction `code`, one of 0x98 to 0x9F.
    fn execute_98_9f(&mut self, code: u8, operand: &Operand, interconnect: &mut Interconnect)
        requires
            0x98 <= code <= 0x9F,
            code != 0xCB,
            old(interconnect)@.wf(),
            operand_fits(code, *operand),
            execute_ok(code, old(self).registers, old(interconnect)@, *operand),
        ensures
            (*final(self), final(interconnect)@) == execute(code, *old(self), old(interconnect)@, *operand),
            final(interconnect)@.wf(),
    {
        match code {
            0x98 => self.sbc_a_b(),
            0x99 => self.sbc_a_c(),
            0x9A => self.sbc_a_d(),
            0x9B => self.sbc_a_e(),
            0x9C => self.sbc_a_h(),
            0x9D => self.sbc_a_l(),
            0x9E => self.sbc_a_hl_ptr(interconnect),
            0x9F => self.sbc_a_a(),
            _ => (),
        }
    }

    /// Runs the unprefixed instruction `code`, one of 0xA0 to 0xA7.
    fn execute_a0_a7(&mut self, code: u8, operand: &Operand, interconnect: &mut Interconnect)
        requires
            0xA0 <= code <= 0xA7,
            code != 0xCB,
            old(interconnect)@.wf(),
            operand_fits(code, *operand),
            execute_ok(code, old(self).registers, old(interconnect)@, *operand),
        ensures
            (*final(self), final(interconnect)@) == execute(code, *old(self), old(interconnect)@, *operand),
            final(interconnect)@.wf(),
    {
        match code {
            0xA0 => self.and_b(),
            0xA1 => self.and_c(),
            0xA2 => self.and_d(),
            0xA3 => self.and_e(),
            0xA4 => self.and_h(),
            0xA5 => self.and_l(),
            0xA6 => self.and_hl_ptr(interconnect),
            0xA7 => self.and_a(),
            _ => (),
        }
    }

    /// Runs the unprefixed instruction `code`, one of 0xA8 to 0xAF.
    fn execute_a8_af(&mut self, code: u8, operand: &Operand, interconnect: &mut Interconnect)
        requires
            0xA8 <= code <= 0xAF,
            code != 0xCB,
            old(interconnect)@.wf(),
            operand_fits(code, *operand),
            execute_ok(code, old(self).registers, old(interconnect)@, *operand),
        ensures
            (*final(self), final(interconnect)@) == execute(code, *old(self), old(interconnect)@, *operand),
            final(interconnect)@.wf(),
    {
        match code {
            0xA8 => self.xor_b(),
            0xA9 => self.xor_c(),
            0xAA => self.xor_d(),
            0xAB => self.xor_e(),
            0xAC => self.xor_h(),
            0xAD => self.xor_l(),
            0xAE => self.xor_hl_ptr(interconnect),
            0xAF => self.xor_a(),
            _ => (),
        }
    }

    /// Runs the unprefixed instruction `code`, one of 0xB0 to 0xB7.
    fn execute_b0_b7(&mut self, code: u8, operand: &Operand, interconnect: &mut Interconnect)
        requires
            0xB0 <= code <= 0xB7,
            code != 0xCB,
            old(interconnect)@.wf(),
            operand_fits(code, *operand),
            execute_ok(code, old(self).registers, old(interconnect)@, *operand),
        ensures
            (*final(self), final(interconnect)@) == execute(code, *old(self), old(interconnect)@, *operand),
            final(interconnect)@.wf(),
    {
        match code {
            0xB0 => self.or_b(),
            0xB1 => self.or_c(),
            0xB2 => self.or_d(),
            0xB3 => self.or_e(),
            0xB4 => self.or_h(),
            0xB5 => self.or_l(),
            0xB6 => self.or_hl_ptr(interconnect),
            0xB7 => self.or_a(),
            _ => (),
        }
    }

    /// Runs the unprefixed instruction `code`, one of 0xB8 to 0xBF.
    fn execute_b8_bf(&mut self, code: u8, operand: &Operand, interconnect: &mut Interconnect)
        requires
            0xB8 <= code <= 0xBF,
            code != 0xCB,
            old(interconnect)@.wf(),
            operand_fits(code, *operand),
            execute_ok(code, old(self).registers, old(interconnect)@, *operand),
        ensures
            (*final(self), final(interconnect)@) == execute(code, *old(self), old(interconnect)@, *operand),
            final(interconnect)@.wf(),
    {
        match code {
            0xB8 => self.cp_b(),
            0xB9 => self.cp_c(),
            0xBA => self.cp_d(),
            0xBB => self.cp_e(),
            0xBC => self.cp_h(),
            0xBD => self.cp_l(),
            0xBE => self.cp_hl_ptr(interconnect),
            0xBF => self.cp_a(),
            _ => (),
        }
    }

    /// Runs the unprefixed instruction `code`, one of 0xC0 to 0xC7.
    fn execute_c0_c7(&mut self, code: u8, operand: &Operand, interconnect: &mut Interconnect)
        requires
            0xC0 <= code <= 0xC7,
            code != 0xCB,
            old(interconnect)@.wf(),
            operand_fits(code, *operand),
            execute_ok(code, old(self).registers, old(interconnect)@, *operand),
        ensures
            (*final(self), final(interconnect)@) == execute(code, *old(self), old(interconnect)@, *operand),
            final(interconnect)@.wf(),
    {
        match code {
            0xC0 => self.ret_nz(interconnect),
            0xC1 => self.pop_bc(interconnect),
            0xC2 => self.jp_nz_imm16(operand),
            0xC3 => self.jp_imm16(operand),
            0xC4 => self.call_nz_imm16(operand, interconnect),
            0xC5 => self.push_bc(interconnect),
            0xC6 => self.add_a_imm8(operand),
            0xC7 => self.call(0x00, interconnect),
            _ => (),
        }
    }

    /// Runs the unprefixed instruction `code`, one of 0xC8 to 0xCF.
    fn execute_c8_cf(&mut self, code: u8, operand: &Operand, interconnect: &mut Interconnect)
        requires
            0xC8 <= code <= 0xCF,
            code != 0xCB,
            old(interconnect)@.wf(),
            operand_fits(code, *operand),
            execute_ok(code, old(self).registers, old(interconnect)@, *operand),
        ensures
            (*final(self), final(interconnect)@) == execute(code, *old(self), old(interconnect)@, *operand),
            final(interconnect)@.wf(),
    {
        match code {
            0xC8 => self.ret_z(interconnect),
            0xC9 => self.ret(interconnect),
            0xCA => self.jp_z_imm16(operand),
            0xCC => self.call_z_imm16(operand, interconnect),
            0xCD => self.call(operand.unwrap_imm16(), interconnect),
            0xCE => self.adc_a_imm8(operand),
            0xCF => self.call(0x08, interconnect),
            _ => (),
        }
    }

    /// Runs the unprefixed instruction `code`, one of 0xD0 to 0xD7.
    fn execute_d0_d7(&mut self, code: u8, operand: &Operand, interconnect: &mut Interconnect)
        requires
            0xD0 <= code <= 0xD7,
            code != 0xCB,
            old(interconnect)@.wf(),
            operand_fits(code, *operand),
            execute_ok(code, old(self).registers, old(interconnect)@, *operand),
        ensures
            (*final(self), final(interconnect)@) == execute(code, *old(self), old(interconnect)@, *operand),
            final(interconnect)@.wf(),
    {
        match code {
            0xD0 => self.ret_nc(interconnect),
            0xD1 => self.pop_de(interconnect),
            0xD2 => self.jp_nc_imm16(operand),
            0xD4 => self.call_nc_imm16(operand, interconnect),
            0xD5 => self.push_de(interconnect),
            0xD6 => self.sub_imm8(operand),
            0xD7 => self.call(0x10, interconnect),
            _ => (),
        }
    }

    /// Runs the unprefixed instruction `code`, one of 0xD8 to 0xDF.
    fn execute_d8_df(&mut self, code: u8, operand: &Operand, interconnect: &mut Interconnect)
        requires
            0xD8 <= code <= 0xDF,
            code != 0xCB,
            old(interconnect)@.wf(),
            operand_fits(code, *operand),
            execute_ok(code, old(self).registers, old(interconnect)@, *operand),
        ensures
            (*final(self), final(interconnect)@) == execute(code, *old(self), old(interconnect)@, *operand),
            final(interconnect)@.wf(),
    {
        match code {
            0xD8 => self.ret_c(interconnect),
            0xD9 => self.reti(interconnect),
            0xDA => self.jp_c_imm16(operand),
            0xDC => self.call_c_imm16(operand, interconnect),
            0xDE => self.sbc_a_imm8(operand),
            0xDF => self.call(0x18, interconnect),
            _ => (),
        }
    }

    /// Runs the unprefixed instruction `code`, one of 0xE0 to 0xE7.
    fn execute_e0_e7(&mut self, code: u8, operand: &Operand, interconnect: &mut Interconnect)
        requires
            0xE0 <= code <= 0xE7,
            code != 0xCB,
            old(interconnect)@.wf(),
            operand_fits(code, *operand),
            execute_ok(code, old(self).registers, old(interconnect)@, *operand),
        ensures
            (*final(self), final(interconnect)@) == execute(code, *old(self), old(interconnect)@, *operand),
            final(interconnect)@.wf(),
    {
        match code {
            0xE0 => self.ld_ff00_imm8_a(operand, interconnect),
            0xE1 => self.pop_hl(interconnect),
            0xE2 => self.ld_ff00_c_a(interconnect),
            0xE5 => self.push_hl(interconnect),
            0xE6 => self.and_imm8(operand),
            0xE7 => self.call(0x20, interconnect),
            _ => (),
        }
    }

    /// Runs the unprefixed instruction `code`, one of 0xE8 to 0xEF.
    fn execute_e8_ef(&mut self, code: u8, operand: &Operand, interconnect: &mut Interconnect)
        requires
            0xE8 <= code <= 0xEF,
            code != 0xCB,
            old(interconnect)@.wf(),
            operand_fits(code, *operand),
            execute_ok(code, old(self).registers, old(interconnect)@, *operand),
        ensures
            (*final(self), final(interconnect)@) == execute(code, *old(self), old(interconnect)@, *operand),
            final(interconnect)@.wf(),
    {
        match code {
            0xE8 => self.add_sp_imm8(operand),
            0xE9 => self.jp_hl(),
            0xEA => self.ld_imm16_a(operand, interconnect),
            0xEE => self.xor_imm8(operand),
            0xEF => self.call(0x28, interconnect),
            _ => (),
        }
    }

    /// Runs the unprefixed instruction `code`, one of 0xF0 to 0xF7.
    fn execute_f0_f7(&mut self, code: u8, operand: &Operand, interconnect: &mut Interconnect)
        requires
            0xF0 <= code <= 0xF7,
            code != 0xCB,
            old(interconnect)@.wf(),
            operand_fits(code, *operand),
            execute_ok(code, old(self).registers, old(interconnect)@, *operand),
        ensures
            (*final(self), final(interconnect)@) == execute(code, *old(self), old(interconnect)@, *operand),
            final(interconnect)@.wf(),
    {
        match code {
            0xF0 => self.ld_a_ff00_imm8(operand, interconnect),
            0xF1 => self.pop_af(interconnect),
            0xF2 => self.ld_a_c_ptr(interconnect),
            0xF3 => self.di(interconnect),
            0xF5 => self.push_af(interconnect),
            0xF6 => self.or_imm8(operand),
            0xF7 => self.call(0x30, interconnect),
            _ => (),
        }
    }

    /// Runs the unprefixed instruction `code`, one of 0xF8 to 0xFF.
    fn execute_f8_ff(&mut self, code: u8, operand: &Operand, interconnect: &mut Interconnect)
        requires
            0xF8 <= code <= 0xFF,
            code != 0xCB,
            old(interconnect)@.wf(),
            operand_fits(code, *operand),
            execute_ok(code, old(self).registers, old(interconnect)@, *operand),
        ensures
            (*final(self), final(interconnect)@) == execute(code, *old(self), old(interconnect)@, *operand),
            final(interconnect)@.wf(),
    {
        match code {
            0xF8 => self.ldhl_sp_imm8(operand),
            0xF9 => self.ld_sp_hl(),
            0xFA => self.ld_a_imm16(operand, interconnect),
            0xFB => self.ei(interconnect),
            0xFE => self.cp_imm8(operand),
            0xFF => self.call(0x38, interconnect),
            _ => (),
        }
    }

    /// Runs the prefixed instruction `code`, one of 0x00 to 0x07.
    fn execute_cb_00_07(&mut self, code: u8, interconnect: &mut Interconnect)
        requires
            0x00 <= code <= 0x07,
            old(interconnect)@.wf(),
            execute_cb_ok(code, old(self).registers, old(interconnect)@),
        ensures
            (*final(self), final(interconnect)@) == execute_cb(code, *old(self), old(interconnect)@),
            final(interconnect)@.wf(),
    {
        match code {
            0x00 => self.rlc_b(),
            0x01 => self.rlc_c(),
            0x02 => self.rlc_d(),
            0x03 => self.rlc_e(),
            0x04 => self.rlc_h(),
            0x05 => self.rlc_l(),
            0x06 => self.rlc_hl_ptr(interconnect),
            _ => self.rlc_a(),
        }
    }

    /// Runs the prefixed instruction `code`, one of 0x08 to 0x0F.
    fn execute_cb_08_0f(&mut self, code: u8, interconnect: &mut Interconnect)
        requires
            0x08 <= code <= 0x0F,
            old(interconnect)@.wf(),
            execute_cb_ok(code, old(self).registers, old(interconnect)@),
        ensures
            (*final(self), final(interconnect)@) == execute_cb(code, *old(self), old(interconnect)@),
            final(interconnect)@.wf(),
    {
        match code {
            0x08 => self.rrc_b(),
            0x09 => self.rrc_c(),
            0x0A => self.rrc_d(),
            0x0B => self.rrc_e(),
            0x0C => self.rrc_h(),
            0x0D => self.rrc_l(),
            0x0E => self.rrc_hl_ptr(interconnect),
            _ => self.rrc_a(),
        }
    }

    /// Runs the prefixed instruction `code`, one of 0x10 to 0x17.
    fn execute_cb_10_17(&mut self, code: u8, interconnect: &mut Interconnect)
        requires
            0x10 <= code <= 0x17,
            old(interconnect)@.wf(),
            execute_cb_ok(code, old(self).registers, old(interconnect)@),
        ensures
            (*final(self), final(interconnect)@) == execute_cb(code, *old(self), old(interconnect)@),
            final(interconnect)@.wf(),
    {
        match code {
            0x10 => self.rl_b(),
            0x11 => self.rl_c(),
            0x12 => self.rl_d(),
            0x13 => self.rl_e(),
            0x14 => self.rl_h(),
            0x15 => self.rl_l(),
            0x16 => self.rl_hl_ptr(interconnect),
            _ => self.rl_a(),
        }
    }

    /// Runs the prefixed instruction `code`, one of 0x18 to 0x1F.
    fn execute_cb_18_1f(&mut self, code: u8, interconnect: &mut Interconnect)
        requires
            0x18 <= code <= 0x1F,
            old(interconnect)@.wf(),
            execute_cb_ok(code, old(self).registers, old(interconnect)@),
        ensures
            (*final(self), final(interconnect)@) == execute_cb(code, *old(self), old(interconnect)@),
            final(interconnect)@.wf(),
    {
        match code {
            0x18 => self.rr_b(),
            0x19 => self.rr_c(),
            0x1A => self.rr_d(),
            0x1B => self.rr_e(),
            0x1C => self.rr_h(),
            0x1D => self.rr_l(),
            0x1E => self.rr_hl_ptr(interconnect),
            _ => self.rr_a(),
        }
    }

    /// Runs the prefixed instruction `code`, one of 0x20 to 0x27.
    fn execute_cb_20_27(&mut self, code: u8, interconnect: &mut Interconnect)
        requires
            0x20 <= code <= 0x27,
            old(interconnect)@.wf(),
            execute_cb_ok(code, old(self).registers, old(interconnect)@),
        ensures
            (*final(self), final(interconnect)@) == execute_cb(code, *old(self), old(interconnect)@),
            final(interconnect)@.wf(),
    {
        match code {
            0x20 => self.sla_b(),
            0x21 => self.sla_c(),
            0x22 => self.sla_d(),
            0x23 => self.sla_e(),
            0x24 => self.sla_h(),
            0x25 => self.sla_l(),
            0x26 => self.sla_hl_ptr(interconnect),
            _ => self.sla_a(),
        }
    }

    /// Runs the prefixed instruction `code`, one of 0x28 to 0x2F.
    fn execute_cb_28_2f(&mut self, code: u8, interconnect: &mut Interconnect)
        requires
            0x28 <= code <= 0x2F,
            old(interconnect)@.wf(),
            execute_cb_ok(code, old(self).registers, old(interconnect)@),
        ensures
            (*final(self), final(interconnect)@) == execute_cb(code, *old(self), old(interconnect)@),
            final(interconnect)@.wf(),
    {
        match code {
            0x28 => self.sra_b(),
            0x29 => self.sra_c(),
            0x2A => self.sra_d(),
            0x2B => self.sra_e(),
            0x2C => self.sra_h(),
            0x2D => self.sra_l(),
            0x2E => self.sra_hl_ptr(interconnect),
            _ => self.sra_a(),
        }
    }

    /// Runs the prefixed instruction `code`, one of 0x30 to 0x37.
    fn execute_cb_30_37(&mut self, code: u8, interconnect: &mut Interconnect)
        requires
            0x30 <= code <= 0x37,
            old(interconnect)@.wf(),
            execute_cb_ok(code, old(self).registers, old(interconnect)@),
        ensures
            (*final(self), final(interconnect)@) == execute_cb(code, *old(self), old(interconnect)@),
            final(interconnect)@.wf(),
    {
        match code {
            0x30 => self.swap_b(),
            0x31 => self.swap_c(),
            0x32 => self.swap_d(),
            0x33 => self.swap_e(),
            0x34 => self.swap_h(),
            0x35 => self.swap_l(),
            0x36 => self.swap_hl_ptr(interconnect),
            _ => self.swap_a(),
        }
    }

    /// Runs the prefixed instruction `code`, one of 0x38 to 0x3F.
    fn execute_cb_38_3f(&mut self, code: u8, interconnect: &mut Interconnect)
        requires
            0x38 <= code <= 0x3F,
            old(interconnect)@.wf(),
            execute_cb_ok(code, old(self).registers, old(interconnect)@),
        ensures
            (*final(self), final(interconnect)@) == execute_cb(code, *old(self), old(interconnect)@),
            final(interconnect)@.wf(),
    {
        match code {
            0x38 => self.srl_b(),
            0x39 => self.srl_c(),
            0x3A => self.srl_d(),
            0x3B => self.srl_e(),
            0x3C => self.srl_h(),
            0x3D => self.srl_l(),
            0x3E => self.srl_hl_ptr(interconnect),
            _ => self.srl_a(),
        }
    }

    /// Runs the prefixed instruction `code`, one of 0x40 to 0x47.
    fn execute_cb_40_47(&mut self, code: u8, interconnect: &mut Interconnect)
        requires
            0x40 <= code <= 0x47,
            old(interconnect)@.wf(),
            execute_cb_ok(code, old(self).registers, old(interconnect)@),
        ensures
            (*final(self), final(interconnect)@) == execute_cb(code, *old(self), old(interconnect)@),
            final(interconnect)@.wf(),
    {
        match code {
            0x40 => self.bit_0_b(),
            0x41 => self.bit_0_c(),
            0x42 => self.bit_0_d(),
            0x43 => self.bit_0_e(),
            0x44 => self.bit_0_h(),
            0x45 => self.bit_0_l(),
            0x46 => self.bit_0_hl_ptr(interconnect),
            _ => self.bit_0_a(),
        }
    }

    /// Runs the prefixed instruction `code`, one of 0x48 to 0x4F.
    fn execute_cb_48_4f(&mut self, code: u8, interconnect: &mut Interconnect)
        requires
            0x48 <= code <= 0x4F,
            old(interconnect)@.wf(),
            execute_cb_ok(code, old(self).registers, old(interconnect)@),
        ensures
            (*final(self), final(interconnect)@) == execute_cb(code, *old(self), old(interconnect)@),
            final(interconnect)@.wf(),
    {
        match code {
            0x48 => self.bit_1_b(),
            0x49 => self.bit_1_c(),
            0x4A => self.bit_1_d(),
            0x4B => self.bit_1_e(),
            0x4C => self.bit_1_h(),
            0x4D => self.bit_1_l(),
            0x4E => self.bit_1_hl_ptr(interconnect),
            _ => self.bit_1_a(),
        }
    }

    /// Runs the prefixed instruction `code`, one of 0x50 to 0x57.
    fn execute_cb_50_57(&mut self, code: u8, interconnect: &mut Interconnect)
        requires
            0x50 <= code <= 0x57,
            old(interconnect)@.wf(),
            execute_cb_ok(code, old(self).registers, old(interconnect)@),
        ensures
            (*final(self), final(interconnect)@) == execute_cb(code, *old(self), old(interconnect)@),
            final(interconnect)@.wf(),
    {
        match code {
            0x50 => self.bit_2_b(),
            0x51 => self.bit_2_c(),
            0x52 => self.bit_2_d(),
            0x53 => self.bit_2_e(),
            0x54 => self.bit_2_h(),
            0x55 => self.bit_2_l(),
            0x56 => self.bit_2_hl_ptr(interconnect),
            _ => self.bit_2_a(),
        }
    }

    /// Runs the prefixed instruction `code`, one of 0x58 to 0x5F.
    fn execute_cb_58_5f(&mut self, code: u8, interconnect: &mut Interconnect)
        requires
            0x58 <= code <= 0x5F,
            old(interconnect)@.wf(),
            execute_cb_ok(code, old(self).registers, old(interconnect)@),
        ensures
            (*final(self), final(interconnect)@) == execute_cb(code, *old(self), old(interconnect)@),
            final(interconnect)@.wf(),
    {
        match code {
            0x58 => self.bit_3_b(),
            0x59 => self.bit_3_c(),
            0x5A => self.bit_3_d(),
            0x5B => self.bit_3_e(),
            0x5C => self.bit_3_h(),
            0x5D => self.bit_3_l(),
            0x5E => self.bit_3_hl_ptr(interconnect),
            _ => self.bit_3_a(),
        }
    }

    /// Runs the prefixed instruction `code`, one of 0x60 to 0x67.
    fn execute_cb_60_67(&mut self, code: u8, interconnect: &mut Interconnect)
        requires
            0x60 <= code <= 0x67,
            old(interconnect)@.wf(),
            execute_cb_ok(code, old(self).registers, old(interconnect)@),
        ensures
            (*final(self), final(interconnect)@) == execute_cb(code, *old(self), old(interconnect)@),
            final(interconnect)@.wf(),
    {
        match code {
            0x60 => self.bit_4_b(),
            0x61 => self.bit_4_c(),
            0x62 => self.bit_4_d(),
            0x63 => self.bit_4_e(),
            0x64 => self.bit_4_h(),
            0x65 => self.bit_4_l(),
            0x66 => self.bit_4_hl_ptr(interconnect),
            _ => self.bit_4_a(),
        }
    }

    /// Runs the prefixed instruction `code`, one of 0x68 to 0x6F.
    fn execute_cb_68_6f(&mut self, code: u8, interconnect: &mut Interconnect)
        requires
            0x68 <= code <= 0x6F,
            old(interconnect)@.wf(),
            execute_cb_ok(code, old(self).registers, old(interconnect)@),
        ensures
            (*final(self), final(interconnect)@) == execute_cb(code, *old(self), old(interconnect)@),
            final(interconnect)@.wf(),
    {
        match code {
            0x68 => self.bit_5_b(),
            0x69 => self.bit_5_c(),
            0x6A => self.bit_5_d(),
            0x6B => self.bit_5_e(),
            0x6C => self.bit_5_h(),
            0x6D => self.bit_5_l(),
            0x6E => self.bit_5_hl_ptr(interconnect),
            _ => self.bit_5_a(),
        }
    }

    /// Runs the prefixed instruction `code`, one of 0x70 to 0x77.
    fn execute_cb_70_77(&mut self, code: u8, interconnect: &mut Interconnect)
        requires
            0x70 <= code <= 0x77,
            old(interconnect)@.wf(),
            execute_cb_ok(code, old(self).registers, old(interconnect)@),
        ensures
            (*final(self), final(interconnect)@) == execute_cb(code, *old(self), old(interconnect)@),
            final(interconnect)@.wf(),
    {
        match code {
            0x70 => self.bit_6_b(),
            0x71 => self.bit_6_c(),
            0x72 => self.bit_6_d(),
            0x73 => self.bit_6_e(),
            0x74 => self.bit_6_h(),
            0x75 => self.bit_6_l(),
            0x76 => self.bit_6_hl_ptr(interconnect),
            _ => self.bit_6_a(),
        }
    }

    /// Runs the prefixed instruction `code`, one of 0x78 to 0x7F.
    fn execute_cb_78_7f(&mut self, code: u8, interconnect: &mut Interconnect)
        requires
            0x78 <= code <= 0x7F,
            old(interconnect)@.wf(),
            execute_cb_ok(code, old(self).registers, old(interconnect)@),
        ensures
            (*final(self), final(interconnect)@) == execute_cb(code, *old(self), old(interconnect)@),
            final(interconnect)@.wf(),
    {
        match code {
            0x78 => self.bit_7_b(),
            0x79 => self.bit_7_c(),
            0x7A => self.bit_7_d(),
            0x7B => self.bit_7_e(),
            0x7C => self.bit_7_h(),
            0x7D => self.bit_7_l(),
            0x7E => self.bit_7_hl_ptr(interconnect),
            _ => self.bit_7_a(),
        }
    }

    /// Runs the prefixed instruction `code`, one of 0x80 to 0x87.
    fn execute_cb_80_87(&mut self, code: u8, interconnect: &mut Interconnect)
        requires
            0x80 <= code <= 0x87,
            old(interconnect)@.wf(),
            execute_cb_ok(code, old(self).registers, old(interconnect)@),
        ensures
            (*final(self), final(interconnect)@) == execute_cb(code, *old(self), old(interconnect)@),
            final(interconnect)@.wf(),
    {
        match code {
            0x80 => self.res_0_b(),
            0x81 => self.res_0_c(),
            0x82 => self.res_0_d(),
            0x83 => self.res_0_e(),
            0x84 => self.res_0_h(),
            0x85 => self.res_0_l(),
            0x86 => self.res_0_hl_ptr(interconnect),
            _ => self.res_0_a(),
        }
    }

    /// Runs the prefixed instruction `code`, one of 0x88 to 0x8F.
    fn execute_cb_88_8f(&mut self, code: u8, interconnect: &mut Interconnect)
        requires
            0x88 <= code <= 0x8F,
            old(interconnect)@.wf(),
            execute_cb_ok(code, old(self).registers, old(interconnect)@),
        ensures
            (*final(self), final(interconnect)@) == execute_cb(code, *old(self), old(interconnect)@),
            final(interconnect)@.wf(),
    {
        match code {
            0x88 => self.res_1_b(),
            0x89 => self.res_1_c(),
            0x8A => self.res_1_d(),
            0x8B => self.res_1_e(),
            0x8C => self.res_1_h(),
            0x8D => self.res_1_l(),
            0x8E => self.res_1_hl_ptr(interconnect),
            _ => self.res_1_a(),
        }
    }

    /// Runs the prefixed instruction `code`, one of 0x90 to 0x97.
    fn execute_cb_90_97(&mut self, code: u8, interconnect: &mut Interconnect)
        requires
            0x90 <= code <= 0x97,
            old(interconnect)@.wf(),
            execute_cb_ok(code, old(self).registers, old(interconnect)@),
        ensures
            (*final(self), final(interconnect)@) == execute_cb(code, *old(self), old(interconnect)@),
            final(interconnect)@.wf(),
    {
        match code {
            0x90 => self.res_2_b(),
            0x91 => self.res_2_c(),
            0x92 => self.res_2_d(),
            0x93 => self.res_2_e(),
            0x94 => self.res_2_h(),
            0x95 => self.res_2_l(),
            0x96 => self.res_2_hl_ptr(interconnect),
            _ => self.res_2_a(),
        }
    }

    /// Runs the prefixed instruction `code`, one of 0x98 to 0x9F.
    fn execute_cb_98_9f(&mut self, code: u8, interconnect: &mut Interconnect)
        requires
            0x98 <= code <= 0x9F,
            old(interconnect)@.wf(),
            execute_cb_ok(code, old(self).registers, old(interconnect)@),
        ensures
            (*final(self), final(interconnect)@) == execute_cb(code, *old(self), old(interconnect)@),
            final(interconnect)@.wf(),
    {
        match code {
            0x98 => self.res_3_b(),
            0x99 => self.res_3_c(),
            0x9A => self.res_3_d(),
            0x9B => self.res_3_e(),
            0x9C => self.res_3_h(),
            0x9D => self.res_3_l(),
            0x9E => self.res_3_hl_ptr(interconnect),
            _ => self.res_3_a(),
        }
    }

    /// Runs the prefixed instruction `code`, one of 0xA0 to 0xA7.
    fn execute_cb_a0_a7(&mut self, code: u8, interconnect: &mut Interconnect)
        requires
            0xA0 <= code <= 0xA7,
            old(interconnect)@.wf(),
            execute_cb_ok(code, old(self).registers, old(interconnect)@),
        ensures
            (*final(self), final(interconnect)@) == execute_cb(code, *old(self), old(interconnect)@),
            final(interconnect)@.wf(),
    {
        match code {
            0xA0 => self.res_4_b(),
            0xA1 => self.res_4_c(),
            0xA2 => self.res_4_d(),
            0xA3 => self.res_4_e(),
            0xA4 => self.res_4_h(),
            0xA5 => self.res_4_l(),
            0xA6 => self.res_4_hl_ptr(interconnect),
            _ => self.res_4_a(),
        }
    }

    /// Runs the prefixed instruction `code`, one of 0xA8 to 0xAF.
    fn execute_cb_a8_af(&mut self, code: u8, interconnect: &mut Interconnect)
        requires
            0xA8 <= code <= 0xAF,
            old(interconnect)@.wf(),
            execute_cb_ok(code, old(self).registers, old(interconnect)@),
        ensures
            (*final(self), final(interconnect)@) == execute_cb(code, *old(self), old(interconnect)@),
            final(interconnect)@.wf(),
    {
        match code {
            0xA8 => self.res_5_b(),
            0xA9 => self.res_5_c(),
            0xAA => self.res_5_d(),
            0xAB => self.res_5_e(),
            0xAC => self.res_5_h(),
            0xAD => self.res_5_l(),
            0xAE => self.res_5_hl_ptr(interconnect),
            _ => self.res_5_a(),
        }
    }

    /// Runs the prefixed instruction `code`, one of 0xB0 to 0xB7.
    fn execute_cb_b0_b7(&mut self, code: u8, interconnect: &mut Interconnect)
        requires
            0xB0 <= code <= 0xB7,
            old(interconnect)@.wf(),
            execute_cb_ok(code, old(self).registers, old(interconnect)@),
        ensures
            (*final(self), final(interconnect)@) == execute_cb(code, *old(self), old(interconnect)@),
            final(interconnect)@.wf(),
    {
        match code {
            0xB0 => self.res_6_b(),
            0xB1 => self.res_6_c(),
            0xB2 => self.res_6_d(),
            0xB3 => self.res_6_e(),
            0xB4 => self.res_6_h(),
            0xB5 => self.res_6_l(),
            0xB6 => self.res_6_hl_ptr(interconnect),
            _ => self.res_6_a(),
        }
    }

    /// Runs the prefixed instruction `code`, one of 0xB8 to 0xBF.
    fn execute_cb_b8_bf(&mut self, code: u8, interconnect: &mut Interconnect)
        requires
            0xB8 <= code <= 0xBF,
            old(interconnect)@.wf(),
            execute_cb_ok(code, old(self).registers, old(interconnect)@),
        ensures
            (*final(self), final(interconnect)@) == execute_cb(code, *old(self), old(interconnect)@),
            final(interconnect)@.wf(),
    {
        match code {
            0xB8 => self.res_7_b(),
            0xB9 => self.res_7_c(),
            0xBA => self.res_7_d(),
            0xBB => self.res_7_e(),
            0xBC => self.res_7_h(),
            0xBD => self.res_7_l(),
            0xBE => self.res_7_hl_ptr(interconnect),
            _ => self.res_7_a(),
        }
    }

    /// Runs the prefixed instruction `code`, one of 0xC0 to 0xC7.
    fn execute_cb_c0_c7(&mut self, code: u8, interconnect: &mut Interconnect)
        requires
            0xC0 <= code <= 0xC7,
            old(interconnect)@.wf(),
            execute_cb_ok(code, old(self).registers, old(interconnect)@),
        ensures
            (*final(self), final(interconnect)@) == execute_cb(code, *old(self), old(interconnect)@),
            final(interconnect)@.wf(),
    {
        match code {
            0xC0 => self.set_0_b(),
            0xC1 => self.set_0_c(),
            0xC2 => self.set_0_d(),
            0xC3 => self.set_0_e(),
            0xC4 => self.set_0_h(),
            0xC5 => self.set_0_l(),
            0xC6 => self.set_0_hl_ptr(interconnect),
            _ => self.set_0_a(),
        }
    }

    /// Runs the prefixed instruction `code`, one of 0xC8 to 0xCF.
    fn execute_cb_c8_cf(&mut self, code: u8, interconnect: &mut Interconnect)
        requires
            0xC8 <= code <= 0xCF,
            old(interconnect)@.wf(),
            execute_cb_ok(code, old(self).registers, old(interconnect)@),
        ensures
            (*final(self), final(interconnect)@) == execute_cb(code, *old(self), old(interconnect)@),
            final(interconnect)@.wf(),
    {
        match code {
            0xC8 => self.set_1_b(),
            0xC9 => self.set_1_c(),
            0xCA => self.set_1_d(),
            0xCB => self.set_1_e(),
            0xCC => self.set_1_h(),
            0xCD => self.set_1_l(),
            0xCE => self.set_1_hl_ptr(interconnect),
            _ => self.set_1_a(),
        }
    }

    /// Runs the prefixed instruction `code`, one of 0xD0 to 0xD7.
    fn execute_cb_d0_d7(&mut self, code: u8, interconnect: &mut Interconnect)
        requires
            0xD0 <= code <= 0xD7,
            old(interconnect)@.wf(),
            execute_cb_ok(code, old(self).registers, old(interconnect)@),
        ensures
            (*final(self), final(interconnect)@) == execute_cb(code, *old(self), old(interconnect)@),
            final(interconnect)@.wf(),
    {
        match code {
            0xD0 => self.set_2_b(),
            0xD1 => self.set_2_c(),
            0xD2 => self.set_2_d(),
            0xD3 => self.set_2_e(),
            0xD4 => self.set_2_h(),
            0xD5 => self.set_2_l(),
            0xD6 => self.set_2_hl_ptr(interconnect),
            _ => self.set_2_a(),
        }
    }

    /// Runs the prefixed instruction `code`, one of 0xD8 to 0xDF.
    fn execute_cb_d8_df(&mut self, code: u8, interconnect: &mut Interconnect)
        requires
            0xD8 <= code <= 0xDF,
            old(interconnect)@.wf(),
            execute_cb_ok(code, old(self).registers, old(interconnect)@),
        ensures
            (*final(self), final(interconnect)@) == execute_cb(code, *old(self), old(interconnect)@),
            final(interconnect)@.wf(),
    {
        match code {
            0xD8 => self.set_3_b(),
            0xD9 => self.set_3_c(),
            0xDA => self.set_3_d(),
            0xDB => self.set_3_e(),
            0xDC => self.set_3_h(),
            0xDD => self.set_3_l(),
            0xDE => self.set_3_hl_ptr(interconnect),
            _ => self.set_3_a(),
        }
    }

    /// Runs the prefixed instruction `code`, one of 0xE0 to 0xE7.
    fn execute_cb_e0_e7(&mut self, code: u8, interconnect: &mut Interconnect)
        requires
            0xE0 <= code <= 0xE7,
            old(interconnect)@.wf(),
            execute_cb_ok(code, old(self).registers, old(interconnect)@),
        ensures
            (*final(self), final(interconnect)@) == execute_cb(code, *old(self), old(interconnect)@),
            final(interconnect)@.wf(),
    {
        match code {
            0xE0 => self.set_4_b(),
            0xE1 => self.set_4_c(),
            0xE2 => self.set_4_d(),
            0xE3 => self.set_4_e(),
            0xE4 => self.set_4_h(),
            0xE5 => self.set_4_l(),
            0xE6 => self.set_4_hl_ptr(interconnect),
            _ => self.set_4_a(),
        }
    }

    /// Runs the prefixed instruction `code`, one of 0xE8 to 0xEF.
    fn execute_cb_e8_ef(&mut self, code: u8, interconnect: &mut Interconnect)
        requires
            0xE8 <= code <= 0xEF,
            old(interconnect)@.wf(),
            execute_cb_ok(code, old(self).registers, old(interconnect)@),
        ensures
            (*final(self), final(interconnect)@) == execute_cb(code, *old(self), old(interconnect)@),
            final(interconnect)@.wf(),
    {
        match code {
            0xE8 => self.set_5_b(),
            0xE9 => self.set_5_c(),
            0xEA => self.set_5_d(),
            0xEB => self.set_5_e(),
            0xEC => self.set_5_h(),
            0xED => self.set_5_l(),
            0xEE => self.set_5_hl_ptr(interconnect),
            _ => self.set_5_a(),
        }
    }

    /// Runs the prefixed instruction `code`, one of 0xF0 to 0xF7.
    fn execute_cb_f0_f7(&mut self, code: u8, interconnect: &mut Interconnect)
        requires
            0xF0 <= code <= 0xF7,
            old(interconnect)@.wf(),
            execute_cb_ok(code, old(self).registers, old(interconnect)@),
        ensures
            (*final(self), final(interconnect)@) == execute_cb(code, *old(self), old(interconnect)@),
            final(interconnect)@.wf(),
    {
        match code {
            0xF0 => self.set_6_b(),
            0xF1 => self.set_6_c(),
            0xF2 => self.set_6_d(),
            0xF3 => self.set_6_e(),
            0xF4 => self.set_6_h(),
            0xF5 => self.set_6_l(),
            0xF6 => self.set_6_hl_ptr(interconnect),
            _ => self.set_6_a(),
        }
    }

    /// Runs the prefixed instruction `code`, one of 0xF8 to 0xFF.
    fn execute_cb_f8_ff(&mut self, code: u8, interconnect: &mut Interconnect)
        requires
            0xF8 <= code <= 0xFF,
            old(interconnect)@.wf(),
            execute_cb_ok(code, old(self).registers, old(interconnect)@),
        ensures
            (*final(self), final(interconnect)@) == execute_cb(code, *old(self), old(interconnect)@),
            final(interconnect)@.wf(),
    {
        match code {
            0xF8 => self.set_7_b(),
            0xF9 => self.set_7_c(),
            0xFA => self.set_7_d(),
            0xFB => self.set_7_e(),
            0xFC => self.set_7_h(),
            0xFD => self.set_7_l(),
            0xFE => self.set_7_hl_ptr(interconnect),
            _ => self.set_7_a(),
        }
    }
}

} // verus!
