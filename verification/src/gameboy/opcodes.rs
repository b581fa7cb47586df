use vstd::prelude::*;

use crate::gameboy::registers::Registers;

verus! {

/// What follows an opcode byte in the instruction stream.
#[derive(Clone, Copy, Debug, Eq, PartialEq, Structural)]
pub enum ArgumentType {
    Implied,
    Imm8,
    Imm16,
    Register,
    Address,
}

/// The operand that an instruction was decoded with.
#[derive(PartialEq, Eq, Structural)]
pub enum Operand {
    NoOperand,
    Imm8(u8),
    Imm16(u16),
    Register(Registers),
    Addr8(u8),
    Addr16(u16),
}

impl Operand {
    /// The value of an 8-bit immediate operand.
    pub open spec fn imm8(self) -> u8 {
        match self {
            Operand::Imm8(v) => v,
            _ => 0,
        }
    }

    /// The value of a 16-bit immediate operand.
    pub open spec fn imm16(self) -> u16 {
        match self {
            Operand::Imm16(v) => v,
            _ => 0,
        }
    }

    pub fn unwrap_imm8(&self) -> (v: u8)
        requires
            *self is Imm8,
        ensures
            v == self.imm8(),
    {
        match *self {
            Operand::Imm8(val) => val,
            _ => 0,
        }
    }

    pub fn unwrap_imm16(&self) -> (v: u16)
        requires
            *self is Imm16,
        ensures
            v == self.imm16(),
    {
        match *self {
            Operand::Imm16(addr) => addr,
            _ => 0,
        }
    }
}

/// An instruction of the CPU: its opcode byte, assembly text, length in
/// bytes, cycle count and operand kind, and whether it follows the 0xCB prefix.
#[derive(Clone, Copy, Debug, Eq, PartialEq)]
pub struct OpCode {
    pub code: u8,
    pub mnemonic: &'static str,
    pub length: u16,
    pub cycles: u8,
    pub argument_type: ArgumentType,
    pub extended: bool,
}

/// Whether `w` occurs in `s`.
pub open spec fn mentions(s: Seq<char>, w: Seq<char>) -> bool {
    exists|i: int| 0 <= i && i + w.len() <= s.len() && #[trigger] s.subrange(i, i + w.len()) == w
}

/// What the text of an opcode becomes under `str::to_uppercase`.
pub uninterp spec fn uppercase(s: Seq<char>) -> Seq<char>;

/// The upper-case form of an ASCII character: `a`-`z` become `A`-`Z`, the
/// others stay.
pub open spec fn ascii_upper(c: char) -> char {
    if 'a' <= c <= 'z' {
        ((c as int) - 32) as char
    } else {
        c
    }
}

/// `str::to_uppercase` of std. Its documentation defines upper case by the
/// Unicode tables, which map the ASCII letters `a`-`z` to `A`-`Z` and leave
/// the other ASCII characters as they are; for other text the result is left
/// to the name `uppercase`.
#[verifier::external_body]
fn to_uppercase(s: &str) -> (r: String)
    ensures
        r@ == uppercase(s@),
        (forall|i: int| 0 <= i < s@.len() ==> (s@[i] as int) < 0x80) ==> r@ == s@.map_values(
            |c: char| ascii_upper(c),
        ),
{
    s.to_uppercase()
}

/// The instruction that opcode byte `byte` stands for without the 0xCB prefix;
/// the eleven bytes that the CPU does not define have none.
pub open spec fn spec_base_opcode(byte: u8) -> Option<OpCode> {
    match byte {
        0x00 => Some(OpCode { code: 0x00, mnemonic: "NOP", length: 1, cycles: 4, argument_type: ArgumentType::Implied, extended: false }),
        0x01 => Some(OpCode { code: 0x01, mnemonic: "LD BC, {imm16}", length: 3, cycles: 12, argument_type: ArgumentType::Imm16, extended: false }),
        0x02 => Some(OpCode { code: 0x02, mnemonic: "LD (BC), A", length: 1, cycles: 8, argument_type: ArgumentType::Implied, extended: false }),
        0x03 => Some(OpCode { code: 0x03, mnemonic: "INC BC", length: 1, cycles: 8, argument_type: ArgumentType::Implied, extended: false }),
        0x04 => Some(OpCode { code: 0x04, mnemonic: "INC B", length: 1, cycles: 4, argument_type: ArgumentType::Implied, extended: false }),
        0x05 => Some(OpCode { code: 0x05, mnemonic: "DEC B", length: 1, cycles: 4, argument_type: ArgumentType::Implied, extended: false }),
        0x06 => Some(OpCode { code: 0x06, mnemonic: "LD B, {imm8}", length: 2, cycles: 8, argument_type: ArgumentType::Imm8, extended: false }),
        0x07 => Some(OpCode { code: 0x07, mnemonic: "RLCA", length: 1, cycles: 4, argument_type: ArgumentType::Implied, extended: false }),
        0x08 => Some(OpCode { code: 0x08, mnemonic: "LD ({imm16}), SP", length: 3, cycles: 20, argument_type: ArgumentType::Imm16, extended: false }),
        0x09 => Some(OpCode { code: 0x09, mnemonic: "ADD HL, BC", length: 1, cycles: 8, argument_type: ArgumentType::Implied, extended: false }),
        0x0A => Some(OpCode { code: 0x0A, mnemonic: "LD A, (BC)", length: 1, cycles: 8, argument_type: ArgumentType::Implied, extended: false }),
        0x0B => Some(OpCode { code: 0x0B, mnemonic: "DEC BC", length: 1, cycles: 8, argument_type: ArgumentType::Implied, extended: false }),
        0x0C => Some(OpCode { code: 0x0C, mnemonic: "INC C", length: 1, cycles: 4, argument_type: ArgumentType::Implied, extended: false }),
        0x0D => Some(OpCode { code: 0x0D, mnemonic: "DEC C", length: 1, cycles: 4, argument_type: ArgumentType::Implied, extended: false }),
        0x0E => Some(OpCode { code: 0x0E, mnemonic: "LD C, {imm8}", length: 2, cycles: 8, argument_type: ArgumentType::Imm8, extended: false }),
        0x0F => Some(OpCode { code: 0x0F, mnemonic: "RRCA", length: 1, cycles: 4, argument_type: ArgumentType::Implied, extended: false }),
        0x10 => Some(OpCode { code: 0x10, mnemonic: "STOP", length: 2, cycles: 4, argument_type: ArgumentType::Implied, extended: false }),
        0x11 => Some(OpCode { code: 0x11, mnemonic: "LD DE, {imm16}", length: 3, cycles: 12, argument_type: ArgumentType::Imm16, extended: false }),
        0x12 => Some(OpCode { code: 0x12, mnemonic: "LD (DE), A", length: 1, cycles: 8, argument_type: ArgumentType::Implied, extended: false }),
        0x13 => Some(OpCode { code: 0x13, mnemonic: "INC DE", length: 1, cycles: 8, argument_type: ArgumentType::Implied, extended: false }),
        0x14 => Some(OpCode { code: 0x14, mnemonic: "INC D", length: 1, cycles: 4, argument_type: ArgumentType::Implied, extended: false }),
        0x15 => Some(OpCode { code: 0x15, mnemonic: "DEC D", length: 1, cycles: 4, argument_type: ArgumentType::Implied, extended: false }),
        0x16 => Some(OpCode { code: 0x16, mnemonic: "LD D, {imm8}", length: 2, cycles: 8, argument_type: ArgumentType::Imm8, extended: false }),
        0x17 => Some(OpCode { code: 0x17, mnemonic: "RLA", length: 1, cycles: 4, argument_type: ArgumentType::Implied, extended: false }),
        0x18 => Some(OpCode { code: 0x18, mnemonic: "JR {imm8}", length: 2, cycles: 12, argument_type: ArgumentType::Imm8, extended: false }),
        0x19 => Some(OpCode { code: 0x19, mnemonic: "ADD HL, DE", length: 1, cycles: 8, argument_type: ArgumentType::Implied, extended: false }),
        0x1A => Some(OpCode { code: 0x1A, mnemonic: "LD A, (DE)", length: 1, cycles: 8, argument_type: ArgumentType::Implied, extended: false }),
        0x1B => Some(OpCode { code: 0x1B, mnemonic: "DEC DE", length: 1, cycles: 8, argument_type: ArgumentType::Implied, extended: false }),
        0x1C => Some(OpCode { code: 0x1C, mnemonic: "INC E", length: 1, cycles: 4, argument_type: ArgumentType::Implied, extended: false }),
        0x1D => Some(OpCode { code: 0x1D, mnemonic: "DEC E", length: 1, cycles: 4, argument_type: ArgumentType::Implied, extended: false }),
        0x1E => Some(OpCode { code: 0x1E, mnemonic: "LD E, {imm8}", length: 2, cycles: 8, argument_type: ArgumentType::Imm8, extended: false }),
        0x1F => Some(OpCode { code: 0x1F, mnemonic: "RRA", length: 1, cycles: 4, argument_type: ArgumentType::Implied, extended: false }),
        0x20 => Some(OpCode { code: 0x20, mnemonic: "JR NZ, {imm8}", length: 2, cycles: 8, argument_type: ArgumentType::Imm8, extended: false }),
        0x21 => Some(OpCode { code: 0x21, mnemonic: "LD HL, {imm16}", length: 3, cycles: 12, argument_type: ArgumentType::Imm16, extended: false }),
        0x22 => Some(OpCode { code: 0x22, mnemonic: "LD (HLI), A", length: 1, cycles: 8, argument_type: ArgumentType::Implied, extended: false }),
        0x23 => Some(OpCode { code: 0x23, mnemonic: "INC HL", length: 1, cycles: 8, argument_type: ArgumentType::Implied, extended: false }),
        0x24 => Some(OpCode { code: 0x24, mnemonic: "INC H", length: 1, cycles: 4, argument_type: ArgumentType::Implied, extended: false }),
        0x25 => Some(OpCode { code: 0x25, mnemonic: "DEC H", length: 1, cycles: 4, argument_type: ArgumentType::Implied, extended: false }),
        0x26 => Some(OpCode { code: 0x26, mnemonic: "LD H, {imm8}", length: 2, cycles: 8, argument_type: ArgumentType::Imm8, extended: false }),
        0x27 => Some(OpCode { code: 0x27, mnemonic: "DAA", length: 1, cycles: 4, argument_type: ArgumentType::Implied, extended: false }),
        0x28 => Some(OpCode { code: 0x28, mnemonic: "JR Z, {imm8}", length: 2, cycles: 8, argument_type: ArgumentType::Imm8, extended: false }),
        0x29 => Some(OpCode { code: 0x29, mnemonic: "ADD HL, HL", length: 1, cycles: 8, argument_type: ArgumentType::Implied, extended: false }),
        0x2A => Some(OpCode { code: 0x2A, mnemonic: "LD A, (HLI)", length: 1, cycles: 8, argument_type: ArgumentType::Implied, extended: false }),
        0x2B => Some(OpCode { code: 0x2B, mnemonic: "DEC HL", length: 1, cycles: 8, argument_type: ArgumentType::Implied, extended: false }),
        0x2C => Some(OpCode { code: 0x2C, mnemonic: "INC L", length: 1, cycles: 4, argument_type: ArgumentType::Implied, extended: false }),
        0x2D => Some(OpCode { code: 0x2D, mnemonic: "DEC L", length: 1, cycles: 4, argument_type: ArgumentType::Implied, extended: false }),
        0x2E => Some(OpCode { code: 0x2E, mnemonic: "LD L, {imm8}", length: 2, cycles: 8, argument_type: ArgumentType::Imm8, extended: false }),
        0x2F => Some(OpCode { code: 0x2F, mnemonic: "CPL", length: 1, cycles: 4, argument_type: ArgumentType::Implied, extended: false }),
        0x30 => Some(OpCode { code: 0x30, mnemonic: "JR NC, {imm8}", length: 2, cycles: 8, argument_type: ArgumentType::Imm8, extended: false }),
        0x31 => Some(OpCode { code: 0x31, mnemonic: "LD SP, {imm16}", length: 3, cycles: 12, argument_type: ArgumentType::Imm16, extended: false }),
        0x32 => Some(OpCode { code: 0x32, mnemonic: "LD (HLD), A", length: 1, cycles: 8, argument_type: ArgumentType::Implied, extended: false }),
        0x33 => Some(OpCode { code: 0x33, mnemonic: "INC SP", length: 1, cycles: 8, argument_type: ArgumentType::Implied, extended: false }),
        0x34 => Some(OpCode { code: 0x34, mnemonic: "INC (HL)", length: 1, cycles: 12, argument_type: ArgumentType::Implied, extended: false }),
        0x35 => Some(OpCode { code: 0x35, mnemonic: "DEC (HL)", length: 1, cycles: 12, argument_type: ArgumentType::Implied, extended: false }),
        0x36 => Some(OpCode { code: 0x36, mnemonic: "LD (HL), {imm8}", length: 2, cycles: 12, argument_type: ArgumentType::Imm8, extended: false }),
        0x37 => Some(OpCode { code: 0x37, mnemonic: "SCF", length: 1, cycles: 4, argument_type: ArgumentType::Implied, extended: false }),
        0x38 => Some(OpCode { code: 0x38, mnemonic: "JR C, {imm8}", length: 2, cycles: 8, argument_type: ArgumentType::Imm8, extended: false }),
        0x39 => Some(OpCode { code: 0x39, mnemonic: "ADD HL, SP", length: 1, cycles: 8, argument_type: ArgumentType::Implied, extended: false }),
        0x3A => Some(OpCode { code: 0x3A, mnemonic: "LD A, (HLD)", length: 1, cycles: 8, argument_type: ArgumentType::Implied, extended: false }),
        0x3B => Some(OpCode { code: 0x3B, mnemonic: "DEC SP", length: 1, cycles: 8, argument_type: ArgumentType::Implied, extended: false }),
        0x3C => Some(OpCode { code: 0x3C, mnemonic: "INC A", length: 1, cycles: 4, argument_type: ArgumentType::Implied, extended: false }),
        0x3D => Some(OpCode { code: 0x3D, mnemonic: "DEC A", length: 1, cycles: 4, argument_type: ArgumentType::Implied, extended: false }),
        0x3E => Some(OpCode { code: 0x3E, mnemonic: "LD A, {imm8}", length: 2, cycles: 8, argument_type: ArgumentType::Imm8, extended: false }),
        0x3F => Some(OpCode { code: 0x3F, mnemonic: "CCF", length: 1, cycles: 4, argument_type: ArgumentType::Implied, extended: false }),
        0x40 => Some(OpCode { code: 0x40, mnemonic: "LD B, B", length: 1, cycles: 4, argument_type: ArgumentType::Implied, extended: false }),
        0x41 => Some(OpCode { code: 0x41, mnemonic: "LD B, C", length: 1, cycles: 4, argument_type: ArgumentType::Implied, extended: false }),
        0x42 => Some(OpCode { code: 0x42, mnemonic: "LD B, D", length: 1, cycles: 4, argument_type: ArgumentType::Implied, extended: false }),
        0x43 => Some(OpCode { code: 0x43, mnemonic: "LD B, E", length: 1, cycles: 4, argument_type: ArgumentType::Implied, extended: false }),
        0x44 => Some(OpCode { code: 0x44, mnemonic: "LD B, H", length: 1, cycles: 4, argument_type: ArgumentType::Implied, extended: false }),
        0x45 => Some(OpCode { code: 0x45, mnemonic: "LD B, L", length: 1, cycles: 4, argument_type: ArgumentType::Implied, extended: false }),
        0x46 => Some(OpCode { code: 0x46, mnemonic: "LD B, (HL)", length: 1, cycles: 8, argument_type: ArgumentType::Implied, extended: false }),
        0x47 => Some(OpCode { code: 0x47, mnemonic: "LD B, A", length: 1, cycles: 4, argument_type: ArgumentType::Implied, extended: false }),
        0x48 => Some(OpCode { code: 0x48, mnemonic: "LD C, B", length: 1, cycles: 4, argument_type: ArgumentType::Implied, extended: false }),
        0x49 => Some(OpCode { code: 0x49, mnemonic: "LD C, C", length: 1, cycles: 4, argument_type: ArgumentType::Implied, extended: false }),
        0x4A => Some(OpCode { code: 0x4A, mnemonic: "LD C, D", length: 1, cycles: 4, argument_type: ArgumentType::Implied, extended: false }),
        0x4B => Some(OpCode { code: 0x4B, mnemonic: "LD C, E", length: 1, cycles: 4, argument_type: ArgumentType::Implied, extended: false }),
        0x4C => Some(OpCode { code: 0x4C, mnemonic: "LD C, H", length: 1, cycles: 4, argument_type: ArgumentType::Implied, extended: false }),
        0x4D => Some(OpCode { code: 0x4D, mnemonic: "LD C, L", length: 1, cycles: 4, argument_type: ArgumentType::Implied, extended: false }),
        0x4E => Some(OpCode { code: 0x4E, mnemonic: "LD C, (HL)", length: 1, cycles: 8, argument_type: ArgumentType::Implied, extended: false }),
        0x4F => Some(OpCode { code: 0x4F, mnemonic: "LD C, A", length: 1, cycles: 4, argument_type: ArgumentType::Implied, extended: false }),
        0x50 => Some(OpCode { code: 0x50, mnemonic: "LD D, B", length: 1, cycles: 4, argument_type: ArgumentType::Implied, extended: false }),
        0x51 => Some(OpCode { code: 0x51, mnemonic: "LD D, C", length: 1, cycles: 4, argument_type: ArgumentType::Implied, extended: false }),
        0x52 => Some(OpCode { code: 0x52, mnemonic: "LD D, D", length: 1, cycles: 4, argument_type: ArgumentType::Implied, extended: false }),
        0x53 => Some(OpCode { code: 0x53, mnemonic: "LD D, E", length: 1, cycles: 4, argument_type: ArgumentType::Implied, extended: false }),
        0x54 => Some(OpCode { code: 0x54, mnemonic: "LD D, H", length: 1, cycles: 4, argument_type: ArgumentType::Implied, extended: false }),
        0x55 => Some(OpCode { code: 0x55, mnemonic: "LD D, L", length: 1, cycles: 4, argument_type: ArgumentType::Implied, extended: false }),
        0x56 => Some(OpCode { code: 0x56, mnemonic: "LD D, (HL)", length: 1, cycles: 8, argument_type: ArgumentType::Implied, extended: false }),
        0x57 => Some(OpCode { code: 0x57, mnemonic: "LD D, A", length: 1, cycles: 4, argument_type: ArgumentType::Implied, extended: false }),
        0x58 => Some(OpCode { code: 0x58, mnemonic: "LD E, B", length: 1, cycles: 4, argument_type: ArgumentType::Implied, extended: false }),
        0x59 => Some(OpCode { code: 0x59, mnemonic: "LD E, C", length: 1, cycles: 4, argument_type: ArgumentType::Implied, extended: false }),
        0x5A => Some(OpCode { code: 0x5A, mnemonic: "LD E, D", length: 1, cycles: 4, argument_type: ArgumentType::Implied, extended: false }),
        0x5B => Some(OpCode { code: 0x5B, mnemonic: "LD E, E", length: 1, cycles: 4, argument_type: ArgumentType::Implied, extended: false }),
        0x5C => Some(OpCode { code: 0x5C, mnemonic: "LD E, H", length: 1, cycles: 4, argument_type: ArgumentType::Implied, extended: false }),
        0x5D => Some(OpCode { code: 0x5D, mnemonic: "LD E, L", length: 1, cycles: 4, argument_type: ArgumentType::Implied, extended: false }),
        0x5E => Some(OpCode { code: 0x5E, mnemonic: "LD E, (HL)", length: 1, cycles: 8, argument_type: ArgumentType::Implied, extended: false }),
        0x5F => Some(OpCode { code: 0x5F, mnemonic: "LD E, A", length: 1, cycles: 4, argument_type: ArgumentType::Implied, extended: false }),
        0x60 => Some(OpCode { code: 0x60, mnemonic: "LD H, B", length: 1, cycles: 4, argument_type: ArgumentType::Implied, extended: false }),
        0x61 => Some(OpCode { code: 0x61, mnemonic: "LD H, C", length: 1, cycles: 4, argument_type: ArgumentType::Implied, extended: false }),
        0x62 => Some(OpCode { code: 0x62, mnemonic: "LD H, D", length: 1, cycles: 4, argument_type: ArgumentType::Implied, extended: false }),
        0x63 => Some(OpCode { code: 0x63, mnemonic: "LD H, E", length: 1, cycles: 4, argument_type: ArgumentType::Implied, extended: false }),
        0x64 => Some(OpCode { code: 0x64, mnemonic: "LD H, H", length: 1, cycles: 4, argument_type: ArgumentType::Implied, extended: false }),
        0x65 => Some(OpCode { code: 0x65, mnemonic: "LD H, L", length: 1, cycles: 4, argument_type: ArgumentType::Implied, extended: false }),
        0x66 => Some(OpCode { code: 0x66, mnemonic: "LD H, (HL)", length: 1, cycles: 8, argument_type: ArgumentType::Implied, extended: false }),
        0x67 => Some(OpCode { code: 0x67, mnemonic: "LD H, A", length: 1, cycles: 4, argument_type: ArgumentType::Implied, extended: false }),
        0x68 => Some(OpCode { code: 0x68, mnemonic: "LD L, B", length: 1, cycles: 4, argument_type: ArgumentType::Implied, extended: false }),
        0x69 => Some(OpCode { code: 0x69, mnemonic: "LD L, C", length: 1, cycles: 4, argument_type: ArgumentType::Implied, extended: false }),
        0x6A => Some(OpCode { code: 0x6A, mnemonic: "LD L, D", length: 1, cycles: 4, argument_type: ArgumentType::Implied, extended: false }),
        0x6B => Some(OpCode { code: 0x6B, mnemonic: "LD L, E", length: 1, cycles: 4, argument_type: ArgumentType::Implied, extended: false }),
        0x6C => Some(OpCode { code: 0x6C, mnemonic: "LD L, H", length: 1, cycles: 4, argument_type: ArgumentType::Implied, extended: false }),
        0x6D => Some(OpCode { code: 0x6D, mnemonic: "LD L, L", length: 1, cycles: 4, argument_type: ArgumentType::Implied, extended: false }),
        0x6E => Some(OpCode { code: 0x6E, mnemonic: "LD L, (HL)", length: 1, cycles: 8, argument_type: ArgumentType::Implied, extended: false }),
        0x6F => Some(OpCode { code: 0x6F, mnemonic: "LD L, A", length: 1, cycles: 4, argument_type: ArgumentType::Implied, extended: false }),
        0x70 => Some(OpCode { code: 0x70, mnemonic: "LD (HL), B", length: 1, cycles: 8, argument_type: ArgumentType::Implied, extended: false }),
        0x71 => Some(OpCode { code: 0x71, mnemonic: "LD (HL), C", length: 1, cycles: 8, argument_type: ArgumentType::Implied, extended: false }),
        0x72 => Some(OpCode { code: 0x72, mnemonic: "LD (HL), D", length: 1, cycles: 8, argument_type: ArgumentType::Implied, extended: false }),
        0x73 => Some(OpCode { code: 0x73, mnemonic: "LD (HL), E", length: 1, cycles: 8, argument_type: ArgumentType::Implied, extended: false }),
        0x74 => Some(OpCode { code: 0x74, mnemonic: "LD (HL), H", length: 1, cycles: 8, argument_type: ArgumentType::Implied, extended: false }),
        0x75 => Some(OpCode { code: 0x75, mnemonic: "LD (HL), L", length: 1, cycles: 8, argument_type: ArgumentType::Implied, extended: false }),
        0x76 => Some(OpCode { code: 0x76, mnemonic: "HALT", length: 1, cycles: 4, argument_type: ArgumentType::Implied, extended: false }),
        0x77 => Some(OpCode { code: 0x77, mnemonic: "LD (HL), A", length: 1, cycles: 8, argument_type: ArgumentType::Implied, extended: false }),
        0x78 => Some(OpCode { code: 0x78, mnemonic: "LD A, B", length: 1, cycles: 4, argument_type: ArgumentType::Implied, extended: false }),
        0x79 => Some(OpCode { code: 0x79, mnemonic: "LD A, C", length: 1, cycles: 4, argument_type: ArgumentType::Implied, extended: false }),
        0x7A => Some(OpCode { code: 0x7A, mnemonic: "LD A, D", length: 1, cycles: 4, argument_type: ArgumentType::Implied, extended: false }),
        0x7B => Some(OpCode { code: 0x7B, mnemonic: "LD A, E", length: 1, cycles: 4, argument_type: ArgumentType::Implied, extended: false }),
        0x7C => Some(OpCode { code: 0x7C, mnemonic: "LD A, H", length: 1, cycles: 4, argument_type: ArgumentType::Implied, extended: false }),
        0x7D => Some(OpCode { code: 0x7D, mnemonic: "LD A, L", length: 1, cycles: 4, argument_type: ArgumentType::Implied, extended: false }),
        0x7E => Some(OpCode { code: 0x7E, mnemonic: "LD A, (HL)", length: 1, cycles: 8, argument_type: ArgumentType::Implied, extended: false }),
        0x7F => Some(OpCode { code: 0x7F, mnemonic: "LD A, A", length: 1, cycles: 4, argument_type: ArgumentType::Implied, extended: false }),
        0x80 => Some(OpCode { code: 0x80, mnemonic: "ADD A, B", length: 1, cycles: 4, argument_type: ArgumentType::Implied, extended: false }),
        0x81 => Some(OpCode { code: 0x81, mnemonic: "ADD A, C", length: 1, cycles: 4, argument_type: ArgumentType::Implied, extended: false }),
        0x82 => Some(OpCode { code: 0x82, mnemonic: "ADD A, D", length: 1, cycles: 4, argument_type: ArgumentType::Implied, extended: false }),
        0x83 => Some(OpCode { code: 0x83, mnemonic: "ADD A, E", length: 1, cycles: 4, argument_type: ArgumentType::Implied, extended: false }),
        0x84 => Some(OpCode { code: 0x84, mnemonic: "ADD A, H", length: 1, cycles: 4, argument_type: ArgumentType::Implied, extended: false }),
        0x85 => Some(OpCode { code: 0x85, mnemonic: "ADD A, L", length: 1, cycles: 4, argument_type: ArgumentType::Implied, extended: false }),
        0x86 => Some(OpCode { code: 0x86, mnemonic: "ADD A, (HL)", length: 1, cycles: 8, argument_type: ArgumentType::Implied, extended: false }),
        0x87 => Some(OpCode { code: 0x87, mnemonic: "ADD A, A", length: 1, cycles: 4, argument_type: ArgumentType::Implied, extended: false }),
        0x88 => Some(OpCode { code: 0x88, mnemonic: "ADC A, B", length: 1, cycles: 4, argument_type: ArgumentType::Implied, extended: false }),
        0x89 => Some(OpCode { code: 0x89, mnemonic: "ADC A, C", length: 1, cycles: 4, argument_type: ArgumentType::Implied, extended: false }),
        0x8A => Some(OpCode { code: 0x8A, mnemonic: "ADC A, D", length: 1, cycles: 4, argument_type: ArgumentType::Implied, extended: false }),
        0x8B => Some(OpCode { code: 0x8B, mnemonic: "ADC A, E", length: 1, cycles: 4, argument_type: ArgumentType::Implied, extended: false }),
        0x8C => Some(OpCode { code: 0x8C, mnemonic: "ADC A, H", length: 1, cycles: 4, argument_type: ArgumentType::Implied, extended: false }),
        0x8D => Some(OpCode { code: 0x8D, mnemonic: "ADC A, L", length: 1, cycles: 4, argument_type: ArgumentType::Implied, extended: false }),
        0x8E => Some(OpCode { code: 0x8E, mnemonic: "ADC A, (HL)", length: 1, cycles: 8, argument_type: ArgumentType::Implied, extended: false }),
        0x8F => Some(OpCode { code: 0x8F, mnemonic: "ADC A, A", length: 1, cycles: 4, argument_type: ArgumentType::Implied, extended: false }),
        0x90 => Some(OpCode { code: 0x90, mnemonic: "SUB B", length: 1, cycles: 4, argument_type: ArgumentType::Implied, extended: false }),
        0x91 => Some(OpCode { code: 0x91, mnemonic: "SUB C", length: 1, cycles: 4, argument_type: ArgumentType::Implied, extended: false }),
        0x92 => Some(OpCode { code: 0x92, mnemonic: "SUB D", length: 1, cycles: 4, argument_type: ArgumentType::Implied, extended: false }),
        0x93 => Some(OpCode { code: 0x93, mnemonic: "SUB E", length: 1, cycles: 4, argument_type: ArgumentType::Implied, extended: false }),
        0x94 => Some(OpCode { code: 0x94, mnemonic: "SUB H", length: 1, cycles: 4, argument_type: ArgumentType::Implied, extended: false }),
        0x95 => Some(OpCode { code: 0x95, mnemonic: "SUB L", length: 1, cycles: 4, argument_type: ArgumentType::Implied, extended: false }),
        0x96 => Some(OpCode { code: 0x96, mnemonic: "SUB (HL)", length: 1, cycles: 8, argument_type: ArgumentType::Implied, extended: false }),
        0x97 => Some(OpCode { code: 0x97, mnemonic: "SUB A", length: 1, cycles: 4, argument_type: ArgumentType::Implied, extended: false }),
        0x98 => Some(OpCode { code: 0x98, mnemonic: "SBC A, B", length: 1, cycles: 4, argument_type: ArgumentType::Implied, extended: false }),
        0x99 => Some(OpCode { code: 0x99, mnemonic: "SBC A, C", length: 1, cycles: 4, argument_type: ArgumentType::Implied, extended: false }),
        0x9A => Some(OpCode { code: 0x9A, mnemonic: "SBC A, D", length: 1, cycles: 4, argument_type: ArgumentType::Implied, extended: false }),
        0x9B => Some(OpCode { code: 0x9B, mnemonic: "SBC A, E", length: 1, cycles: 4, argument_type: ArgumentType::Implied, extended: false }),
        0x9C => Some(OpCode { code: 0x9C, mnemonic: "SBC A, H", length: 1, cycles: 4, argument_type: ArgumentType::Implied, extended: false }),
        0x9D => Some(OpCode { code: 0x9D, mnemonic: "SBC A, L", length: 1, cycles: 4, argument_type: ArgumentType::Implied, extended: false }),
        0x9E => Some(OpCode { code: 0x9E, mnemonic: "SBC A, (HL)", length: 1, cycles: 8, argument_type: ArgumentType::Implied, extended: false }),
        0x9F => Some(OpCode { code: 0x9F, mnemonic: "SBC A, A", length: 1, cycles: 4, argument_type: ArgumentType::Implied, extended: false }),
        0xA0 => Some(OpCode { code: 0xA0, mnemonic: "AND B", length: 1, cycles: 4, argument_type: ArgumentType::Implied, extended: false }),
        0xA1 => Some(OpCode { code: 0xA1, mnemonic: "AND C", length: 1, cycles: 4, argument_type: ArgumentType::Implied, extended: false }),
        0xA2 => Some(OpCode { code: 0xA2, mnemonic: "AND D", length: 1, cycles: 4, argument_type: ArgumentType::Implied, extended: false }),
        0xA3 => Some(OpCode { code: 0xA3, mnemonic: "AND E", length: 1, cycles: 4, argument_type: ArgumentType::Implied, extended: false }),
        0xA4 => Some(OpCode { code: 0xA4, mnemonic: "AND H", length: 1, cycles: 4, argument_type: ArgumentType::Implied, extended: false }),
        0xA5 => Some(OpCode { code: 0xA5, mnemonic: "AND L", length: 1, cycles: 4, argument_type: ArgumentType::Implied, extended: false }),
        0xA6 => Some(OpCode { code: 0xA6, mnemonic: "AND (HL)", length: 1, cycles: 8, argument_type: ArgumentType::Implied, extended: false }),
        0xA7 => Some(OpCode { code: 0xA7, mnemonic: "AND A", length: 1, cycles: 4, argument_type: ArgumentType::Implied, extended: false }),
        0xA8 => Some(OpCode { code: 0xA8, mnemonic: "XOR B", length: 1, cycles: 4, argument_type: ArgumentType::Implied, extended: false }),
        0xA9 => Some(OpCode { code: 0xA9, mnemonic: "XOR C", length: 1, cycles: 4, argument_type: ArgumentType::Implied, extended: false }),
        0xAA => Some(OpCode { code: 0xAA, mnemonic: "XOR D", length: 1, cycles: 4, argument_type: ArgumentType::Implied, extended: false }),
        0xAB => Some(OpCode { code: 0xAB, mnemonic: "XOR E", length: 1, cycles: 4, argument_type: ArgumentType::Implied, extended: false }),
        0xAC => Some(OpCode { code: 0xAC, mnemonic: "XOR H", length: 1, cycles: 4, argument_type: ArgumentType::Implied, extended: false }),
        0xAD => Some(OpCode { code: 0xAD, mnemonic: "XOR L", length: 1, cycles: 4, argument_type: ArgumentType::Implied, extended: false }),
        0xAE => Some(OpCode { code: 0xAE, mnemonic: "XOR (HL)", length: 1, cycles: 8, argument_type: ArgumentType::Implied, extended: false }),
        0xAF => Some(OpCode { code: 0xAF, mnemonic: "XOR A", length: 1, cycles: 4, argument_type: ArgumentType::Implied, extended: false }),
        0xB0 => Some(OpCode { code: 0xB0, mnemonic: "OR B", length: 1, cycles: 4, argument_type: ArgumentType::Implied, extended: false }),
        0xB1 => Some(OpCode { code: 0xB1, mnemonic: "OR C", length: 1, cycles: 4, argument_type: ArgumentType::Implied, extended: false }),
        0xB2 => Some(OpCode { code: 0xB2, mnemonic: "OR D", length: 1, cycles: 4, argument_type: ArgumentType::Implied, extended: false }),
        0xB3 => Some(OpCode { code: 0xB3, mnemonic: "OR E", length: 1, cycles: 4, argument_type: ArgumentType::Implied, extended: false }),
        0xB4 => Some(OpCode { code: 0xB4, mnemonic: "OR H", length: 1, cycles: 4, argument_type: ArgumentType::Implied, extended: false }),
        0xB5 => Some(OpCode { code: 0xB5, mnemonic: "OR L", length: 1, cycles: 4, argument_type: ArgumentType::Implied, extended: false }),
        0xB6 => Some(OpCode { code: 0xB6, mnemonic: "OR (HL)", length: 1, cycles: 8, argument_type: ArgumentType::Implied, extended: false }),
        0xB7 => Some(OpCode { code: 0xB7, mnemonic: "OR A", length: 1, cycles: 4, argument_type: ArgumentType::Implied, extended: false }),
        0xB8 => Some(OpCode { code: 0xB8, mnemonic: "CP B", length: 1, cycles: 4, argument_type: ArgumentType::Implied, extended: false }),
        0xB9 => Some(OpCode { code: 0xB9, mnemonic: "CP C", length: 1, cycles: 4, argument_type: ArgumentType::Implied, extended: false }),
        0xBA => Some(OpCode { code: 0xBA, mnemonic: "CP D", length: 1, cycles: 4, argument_type: ArgumentType::Implied, extended: false }),
        0xBB => Some(OpCode { code: 0xBB, mnemonic: "CP E", length: 1, cycles: 4, argument_type: ArgumentType::Implied, extended: false }),
        0xBC => Some(OpCode { code: 0xBC, mnemonic: "CP H", length: 1, cycles: 4, argument_type: ArgumentType::Implied, extended: false }),
        0xBD => Some(OpCode { code: 0xBD, mnemonic: "CP L", length: 1, cycles: 4, argument_type: ArgumentType::Implied, extended: false }),
        0xBE => Some(OpCode { code: 0xBE, mnemonic: "CP (HL)", length: 1, cycles: 8, argument_type: ArgumentType::Implied, extended: false }),
        0xBF => Some(OpCode { code: 0xBF, mnemonic: "CP A", length: 1, cycles: 4, argument_type: ArgumentType::Implied, extended: false }),
        0xC0 => Some(OpCode { code: 0xC0, mnemonic: "RET NZ", length: 1, cycles: 8, argument_type: ArgumentType::Implied, extended: false }),
        0xC1 => Some(OpCode { code: 0xC1, mnemonic: "POP BC", length: 1, cycles: 12, argument_type: ArgumentType::Implied, extended: false }),
        0xC2 => Some(OpCode { code: 0xC2, mnemonic: "JP NZ, {imm16}", length: 3, cycles: 12, argument_type: ArgumentType::Imm16, extended: false }),
        0xC3 => Some(OpCode { code: 0xC3, mnemonic: "JP {imm16}", length: 3, cycles: 12, argument_type: ArgumentType::Imm16, extended: false }),
        0xC4 => Some(OpCode { code: 0xC4, mnemonic: "CALL NZ, {imm16}", length: 3, cycles: 12, argument_type: ArgumentType::Imm16, extended: false }),
        0xC5 => Some(OpCode { code: 0xC5, mnemonic: "PUSH BC", length: 1, cycles: 16, argument_type: ArgumentType::Implied, extended: false }),
        0xC6 => Some(OpCode { code: 0xC6, mnemonic: "ADD A, {imm8}", length: 2, cycles: 8, argument_type: ArgumentType::Imm8, extended: false }),
        0xC7 => Some(OpCode { code: 0xC7, mnemonic: "RST $00", length: 1, cycles: 16, argument_type: ArgumentType::Implied, extended: false }),
        0xC8 => Some(OpCode { code: 0xC8, mnemonic: "RET Z", length: 1, cycles: 8, argument_type: ArgumentType::Implied, extended: false }),
        0xC9 => Some(OpCode { code: 0xC9, mnemonic: "RET", length: 1, cycles: 16, argument_type: ArgumentType::Implied, extended: false }),
        0xCA => Some(OpCode { code: 0xCA, mnemonic: "JP Z, {imm16}", length: 3, cycles: 12, argument_type: ArgumentType::Imm16, extended: false }),
        0xCB => Some(OpCode { code: 0xCB, mnemonic: "PREFIX CB", length: 1, cycles: 4, argument_type: ArgumentType::Implied, extended: false }),
        0xCC => Some(OpCode { code: 0xCC, mnemonic: "CALL Z, {imm16}", length: 3, cycles: 12, argument_type: ArgumentType::Imm16, extended: false }),
        0xCD => Some(OpCode { code: 0xCD, mnemonic: "CALL {imm16}", length: 3, cycles: 24, argument_type: ArgumentType::Imm16, extended: false }),
        0xCE => Some(OpCode { code: 0xCE, mnemonic: "ADC A, {imm8}", length: 2, cycles: 8, argument_type: ArgumentType::Imm8, extended: false }),
        0xCF => Some(OpCode { code: 0xCF, mnemonic: "RST $08", length: 1, cycles: 16, argument_type: ArgumentType::Implied, extended: false }),
        0xD0 => Some(OpCode { code: 0xD0, mnemonic: "RET NC", length: 1, cycles: 8, argument_type: ArgumentType::Implied, extended: false }),
        0xD1 => Some(OpCode { code: 0xD1, mnemonic: "POP DE", length: 1, cycles: 12, argument_type: ArgumentType::Implied, extended: false }),
        0xD2 => Some(OpCode { code: 0xD2, mnemonic: "JP NC, {imm16}", length: 3, cycles: 12, argument_type: ArgumentType::Imm16, extended: false }),
        0xD4 => Some(OpCode { code: 0xD4, mnemonic: "CALL NC, {imm16}", length: 3, cycles: 12, argument_type: ArgumentType::Imm16, extended: false }),
        0xD5 => Some(OpCode { code: 0xD5, mnemonic: "PUSH DE", length: 1, cycles: 16, argument_type: ArgumentType::Implied, extended: false }),
        0xD6 => Some(OpCode { code: 0xD6, mnemonic: "SUB {imm8}", length: 2, cycles: 8, argument_type: ArgumentType::Imm8, extended: false }),
        0xD7 => Some(OpCode { code: 0xD7, mnemonic: "RST $10", length: 1, cycles: 16, argument_type: ArgumentType::Implied, extended: false }),
        0xD8 => Some(OpCode { code: 0xD8, mnemonic: "RET C", length: 1, cycles: 8, argument_type: ArgumentType::Implied, extended: false }),
        0xD9 => Some(OpCode { code: 0xD9, mnemonic: "RETI", length: 1, cycles: 16, argument_type: ArgumentType::Implied, extended: false }),
        0xDA => Some(OpCode { code: 0xDA, mnemonic: "JP C, {imm16}", length: 3, cycles: 12, argument_type: ArgumentType::Imm16, extended: false }),
        0xDC => Some(OpCode { code: 0xDC, mnemonic: "CALL C, {imm16}", length: 3, cycles: 12, argument_type: ArgumentType::Imm16, extended: false }),
        0xDE => Some(OpCode { code: 0xDE, mnemonic: "SBC A, {imm8}", length: 2, cycles: 8, argument_type: ArgumentType::Imm8, extended: false }),
        0xDF => Some(OpCode { code: 0xDF, mnemonic: "RST $18", length: 1, cycles: 16, argument_type: ArgumentType::Implied, extended: false }),
        0xE0 => Some(OpCode { code: 0xE0, mnemonic: "LD ($FF00+{imm8}), A", length: 2, cycles: 12, argument_type: ArgumentType::Imm8, extended: false }),
        0xE1 => Some(OpCode { code: 0xE1, mnemonic: "POP HL", length: 1, cycles: 12, argument_type: ArgumentType::Implied, extended: false }),
        0xE2 => Some(OpCode { code: 0xE2, mnemonic: "LD ($FF00+C), A", length: 1, cycles: 8, argument_type: ArgumentType::Implied, extended: false }),
        0xE5 => Some(OpCode { code: 0xE5, mnemonic: "PUSH HL", length: 1, cycles: 16, argument_type: ArgumentType::Implied, extended: false }),
        0xE6 => Some(OpCode { code: 0xE6, mnemonic: "AND {imm8}", length: 2, cycles: 8, argument_type: ArgumentType::Imm8, extended: false }),
        0xE7 => Some(OpCode { code: 0xE7, mnemonic: "RST $20", length: 1, cycles: 16, argument_type: ArgumentType::Implied, extended: false }),
        0xE8 => Some(OpCode { code: 0xE8, mnemonic: "ADD SP, {imm8}", length: 2, cycles: 16, argument_type: ArgumentType::Imm8, extended: false }),
        0xE9 => Some(OpCode { code: 0xE9, mnemonic: "JP (HL)", length: 1, cycles: 4, argument_type: ArgumentType::Implied, extended: false }),
        0xEA => Some(OpCode { code: 0xEA, mnemonic: "LD ({imm16}), A", length: 3, cycles: 16, argument_type: ArgumentType::Imm16, extended: false }),
        0xEE => Some(OpCode { code: 0xEE, mnemonic: "XOR {imm8}", length: 2, cycles: 8, argument_type: ArgumentType::Imm8, extended: false }),
        0xEF => Some(OpCode { code: 0xEF, mnemonic: "RST $28", length: 1, cycles: 16, argument_type: ArgumentType::Implied, extended: false }),
        0xF0 => Some(OpCode { code: 0xF0, mnemonic: "LD A, ($FF00+{imm8})", length: 2, cycles: 12, argument_type: ArgumentType::Imm8, extended: false }),
        0xF1 => Some(OpCode { code: 0xF1, mnemonic: "POP AF", length: 1, cycles: 12, argument_type: ArgumentType::Implied, extended: false }),
        0xF2 => Some(OpCode { code: 0xF2, mnemonic: "LD A, ($FF00+C)", length: 1, cycles: 8, argument_type: ArgumentType::Implied, extended: false }),
        0xF3 => Some(OpCode { code: 0xF3, mnemonic: "DI", length: 1, cycles: 4, argument_type: ArgumentType::Implied, extended: false }),
        0xF5 => Some(OpCode { code: 0xF5, mnemonic: "PUSH AF", length: 1, cycles: 16, argument_type: ArgumentType::Implied, extended: false }),
        0xF6 => Some(OpCode { code: 0xF6, mnemonic: "OR {imm8}", length: 2, cycles: 8, argument_type: ArgumentType::Imm8, extended: false }),
        0xF7 => Some(OpCode { code: 0xF7, mnemonic: "RST $30", length: 1, cycles: 16, argument_type: ArgumentType::Implied, extended: false }),
        0xF8 => Some(OpCode { code: 0xF8, mnemonic: "LD HL, SP+{imm8}", length: 2, cycles: 12, argument_type: ArgumentType::Imm8, extended: false }),
        0xF9 => Some(OpCode { code: 0xF9, mnemonic: "LD SP, HL", length: 1, cycles: 8, argument_type: ArgumentType::Implied, extended: false }),
        0xFA => Some(OpCode { code: 0xFA, mnemonic: "LD A, ({imm16})", length: 3, cycles: 16, argument_type: ArgumentType::Imm16, extended: false }),
        0xFB => Some(OpCode { code: 0xFB, mnemonic: "EI", length: 1, cycles: 4, argument_type: ArgumentType::Implied, extended: false }),
        0xFE => Some(OpCode { code: 0xFE, mnemonic: "CP {imm8}", length: 2, cycles: 8, argument_type: ArgumentType::Imm8, extended: false }),
        0xFF => Some(OpCode { code: 0xFF, mnemonic: "RST $38", length: 1, cycles: 16, argument_type: ArgumentType::Implied, extended: false }),
        _ => None,
    }
}

/// The instruction that opcode byte `byte` stands for after the 0xCB prefix.
pub open spec fn spec_cb_opcode(byte: u8) -> OpCode {
    match byte {
        0x00 => OpCode { code: 0x00, mnemonic: "RLC B", length: 1, cycles: 8, argument_type: ArgumentType::Implied, extended: true },
        0x01 => OpCode { code: 0x01, mnemonic: "RLC C", length: 1, cycles: 8, argument_type: ArgumentType::Implied, extended: true },
        0x02 => OpCode { code: 0x02, mnemonic: "RLC D", length: 1, cycles: 8, argument_type: ArgumentType::Implied, extended: true },
        0x03 => OpCode { code: 0x03, mnemonic: "RLC E", length: 1, cycles: 8, argument_type: ArgumentType::Implied, extended: true },
        0x04 => OpCode { code: 0x04, mnemonic: "RLC H", length: 1, cycles: 8, argument_type: ArgumentType::Implied, extended: true },
        0x05 => OpCode { code: 0x05, mnemonic: "RLC L", length: 1, cycles: 8, argument_type: ArgumentType::Implied, extended: true },
        0x06 => OpCode { code: 0x06, mnemonic: "RLC (HL)", length: 1, cycles: 16, argument_type: ArgumentType::Implied, extended: true },
        0x07 => OpCode { code: 0x07, mnemonic: "RLC A", length: 1, cycles: 8, argument_type: ArgumentType::Implied, extended: true },
        0x08 => OpCode { code: 0x08, mnemonic: "RRC B", length: 1, cycles: 8, argument_type: ArgumentType::Implied, extended: true },
        0x09 => OpCode { code: 0x09, mnemonic: "RRC C", length: 1, cycles: 8, argument_type: ArgumentType::Implied, extended: true },
        0x0A => OpCode { code: 0x0A, mnemonic: "RRC D", length: 1, cycles: 8, argument_type: ArgumentType::Implied, extended: true },
        0x0B => OpCode { code: 0x0B, mnemonic: "RRC E", length: 1, cycles: 8, argument_type: ArgumentType::Implied, extended: true },
        0x0C => OpCode { code: 0x0C, mnemonic: "RRC H", length: 1, cycles: 8, argument_type: ArgumentType::Implied, extended: true },
        0x0D => OpCode { code: 0x0D, mnemonic: "RRC L", length: 1, cycles: 8, argument_type: ArgumentType::Implied, extended: true },
        0x0E => OpCode { code: 0x0E, mnemonic: "RRC (HL)", length: 1, cycles: 16, argument_type: ArgumentType::Implied, extended: true },
        0x0F => OpCode { code: 0x0F, mnemonic: "RRC A", length: 1, cycles: 8, argument_type: ArgumentType::Implied, extended: true },
        0x10 => OpCode { code: 0x10, mnemonic: "RL B", length: 1, cycles: 8, argument_type: ArgumentType::Implied, extended: true },
        0x11 => OpCode { code: 0x11, mnemonic: "RL C", length: 1, cycles: 8, argument_type: ArgumentType::Implied, extended: true },
        0x12 => OpCode { code: 0x12, mnemonic: "RL D", length: 1, cycles: 8, argument_type: ArgumentType::Implied, extended: true },
        0x13 => OpCode { code: 0x13, mnemonic: "RL E", length: 1, cycles: 8, argument_type: ArgumentType::Implied, extended: true },
        0x14 => OpCode { code: 0x14, mnemonic: "RL H", length: 1, cycles: 8, argument_type: ArgumentType::Implied, extended: true },
        0x15 => OpCode { code: 0x15, mnemonic: "RL L", length: 1, cycles: 8, argument_type: ArgumentType::Implied, extended: true },
        0x16 => OpCode { code: 0x16, mnemonic: "RL (HL)", length: 1, cycles: 16, argument_type: ArgumentType::Implied, extended: true },
        0x17 => OpCode { code: 0x17, mnemonic: "RL A", length: 1, cycles: 8, argument_type: ArgumentType::Implied, extended: true },
        0x18 => OpCode { code: 0x18, mnemonic: "RR B", length: 1, cycles: 8, argument_type: ArgumentType::Implied, extended: true },
        0x19 => OpCode { code: 0x19, mnemonic: "RR C", length: 1, cycles: 8, argument_type: ArgumentType::Implied, extended: true },
        0x1A => OpCode { code: 0x1A, mnemonic: "RR D", length: 1, cycles: 8, argument_type: ArgumentType::Implied, extended: true },
        0x1B => OpCode { code: 0x1B, mnemonic: "RR E", length: 1, cycles: 8, argument_type: ArgumentType::Implied, extended: true },
        0x1C => OpCode { code: 0x1C, mnemonic: "RR H", length: 1, cycles: 8, argument_type: ArgumentType::Implied, extended: true },
        0x1D => OpCode { code: 0x1D, mnemonic: "RR L", length: 1, cycles: 8, argument_type: ArgumentType::Implied, extended: true },
        0x1E => OpCode { code: 0x1E, mnemonic: "RR (HL)", length: 1, cycles: 16, argument_type: ArgumentType::Implied, extended: true },
        0x1F => OpCode { code: 0x1F, mnemonic: "RR A", length: 1, cycles: 8, argument_type: ArgumentType::Implied, extended: true },
        0x20 => OpCode { code: 0x20, mnemonic: "SLA B", length: 1, cycles: 8, argument_type: ArgumentType::Implied, extended: true },
        0x21 => OpCode { code: 0x21, mnemonic: "SLA C", length: 1, cycles: 8, argument_type: ArgumentType::Implied, extended: true },
        0x22 => OpCode { code: 0x22, mnemonic: "SLA D", length: 1, cycles: 8, argument_type: ArgumentType::Implied, extended: true },
        0x23 => OpCode { code: 0x23, mnemonic: "SLA E", length: 1, cycles: 8, argument_type: ArgumentType::Implied, extended: true },
        0x24 => OpCode { code: 0x24, mnemonic: "SLA H", length: 1, cycles: 8, argument_type: ArgumentType::Implied, extended: true },
        0x25 => OpCode { code: 0x25, mnemonic: "SLA L", length: 1, cycles: 8, argument_type: ArgumentType::Implied, extended: true },
        0x26 => OpCode { code: 0x26, mnemonic: "SLA (HL)", length: 1, cycles: 16, argument_type: ArgumentType::Implied, extended: true },
        0x27 => OpCode { code: 0x27, mnemonic: "SLA A", length: 1, cycles: 8, argument_type: ArgumentType::Implied, extended: true },
        0x28 => OpCode { code: 0x28, mnemonic: "SRA B", length: 1, cycles: 8, argument_type: ArgumentType::Implied, extended: true },
        0x29 => OpCode { code: 0x29, mnemonic: "SRA C", length: 1, cycles: 8, argument_type: ArgumentType::Implied, extended: true },
        0x2A => OpCode { code: 0x2A, mnemonic: "SRA D", length: 1, cycles: 8, argument_type: ArgumentType::Implied, extended: true },
        0x2B => OpCode { code: 0x2B, mnemonic: "SRA E", length: 1, cycles: 8, argument_type: ArgumentType::Implied, extended: true },
        0x2C => OpCode { code: 0x2C, mnemonic: "SRA H", length: 1, cycles: 8, argument_type: ArgumentType::Implied, extended: true },
        0x2D => OpCode { code: 0x2D, mnemonic: "SRA L", length: 1, cycles: 8, argument_type: ArgumentType::Implied, extended: true },
        0x2E => OpCode { code: 0x2E, mnemonic: "SRA (HL)", length: 1, cycles: 16, argument_type: ArgumentType::Implied, extended: true },
        0x2F => OpCode { code: 0x2F, mnemonic: "SRA A", length: 1, cycles: 8, argument_type: ArgumentType::Implied, extended: true },
        0x30 => OpCode { code: 0x30, mnemonic: "SWAP B", length: 1, cycles: 8, argument_type: ArgumentType::Implied, extended: true },
        0x31 => OpCode { code: 0x31, mnemonic: "SWAP C", length: 1, cycles: 8, argument_type: ArgumentType::Implied, extended: true },
        0x32 => OpCode { code: 0x32, mnemonic: "SWAP D", length: 1, cycles: 8, argument_type: ArgumentType::Implied, extended: true },
        0x33 => OpCode { code: 0x33, mnemonic: "SWAP E", length: 1, cycles: 8, argument_type: ArgumentType::Implied, extended: true },
        0x34 => OpCode { code: 0x34, mnemonic: "SWAP H", length: 1, cycles: 8, argument_type: ArgumentType::Implied, extended: true },
        0x35 => OpCode { code: 0x35, mnemonic: "SWAP L", length: 1, cycles: 8, argument_type: ArgumentType::Implied, extended: true },
        0x36 => OpCode { code: 0x36, mnemonic: "SWAP (HL)", length: 1, cycles: 16, argument_type: ArgumentType::Implied, extended: true },
        0x37 => OpCode { code: 0x37, mnemonic: "SWAP A", length: 1, cycles: 8, argument_type: ArgumentType::Implied, extended: true },
        0x38 => OpCode { code: 0x38, mnemonic: "SRL B", length: 1, cycles: 8, argument_type: ArgumentType::Implied, extended: true },
        0x39 => OpCode { code: 0x39, mnemonic: "SRL C", length: 1, cycles: 8, argument_type: ArgumentType::Implied, extended: true },
        0x3A => OpCode { code: 0x3A, mnemonic: "SRL D", length: 1, cycles: 8, argument_type: ArgumentType::Implied, extended: true },
        0x3B => OpCode { code: 0x3B, mnemonic: "SRL E", length: 1, cycles: 8, argument_type: ArgumentType::Implied, extended: true },
        0x3C => OpCode { code: 0x3C, mnemonic: "SRL H", length: 1, cycles: 8, argument_type: ArgumentType::Implied, extended: true },
        0x3D => OpCode { code: 0x3D, mnemonic: "SRL L", length: 1, cycles: 8, argument_type: ArgumentType::Implied, extended: true },
        0x3E => OpCode { code: 0x3E, mnemonic: "SRL (HL)", length: 1, cycles: 16, argument_type: ArgumentType::Implied, extended: true },
        0x3F => OpCode { code: 0x3F, mnemonic: "SRL A", length: 1, cycles: 8, argument_type: ArgumentType::Implied, extended: true },
        0x40 => OpCode { code: 0x40, mnemonic: "BIT 0, B", length: 1, cycles: 8, argument_type: ArgumentType::Implied, extended: true },
        0x41 => OpCode { code: 0x41, mnemonic: "BIT 0, C", length: 1, cycles: 8, argument_type: ArgumentType::Implied, extended: true },
        0x42 => OpCode { code: 0x42, mnemonic: "BIT 0, D", length: 1, cycles: 8, argument_type: ArgumentType::Implied, extended: true },
        0x43 => OpCode { code: 0x43, mnemonic: "BIT 0, E", length: 1, cycles: 8, argument_type: ArgumentType::Implied, extended: true },
        0x44 => OpCode { code: 0x44, mnemonic: "BIT 0, H", length: 1, cycles: 8, argument_type: ArgumentType::Implied, extended: true },
        0x45 => OpCode { code: 0x45, mnemonic: "BIT 0, L", length: 1, cycles: 8, argument_type: ArgumentType::Implied, extended: true },
        0x46 => OpCode { code: 0x46, mnemonic: "BIT 0, (HL)", length: 1, cycles: 12, argument_type: ArgumentType::Implied, extended: true },
        0x47 => OpCode { code: 0x47, mnemonic: "BIT 0, A", length: 1, cycles: 8, argument_type: ArgumentType::Implied, extended: true },
        0x48 => OpCode { code: 0x48, mnemonic: "BIT 1, B", length: 1, cycles: 8, argument_type: ArgumentType::Implied, extended: true },
        0x49 => OpCode { code: 0x49, mnemonic: "BIT 1, C", length: 1, cycles: 8, argument_type: ArgumentType::Implied, extended: true },
        0x4A => OpCode { code: 0x4A, mnemonic: "BIT 1, D", length: 1, cycles: 8, argument_type: ArgumentType::Implied, extended: true },
        0x4B => OpCode { code: 0x4B, mnemonic: "BIT 1, E", length: 1, cycles: 8, argument_type: ArgumentType::Implied, extended: true },
        0x4C => OpCode { code: 0x4C, mnemonic: "BIT 1, H", length: 1, cycles: 8, argument_type: ArgumentType::Implied, extended: true },
        0x4D => OpCode { code: 0x4D, mnemonic: "BIT 1, L", length: 1, cycles: 8, argument_type: ArgumentType::Implied, extended: true },
        0x4E => OpCode { code: 0x4E, mnemonic: "BIT 1, (HL)", length: 1, cycles: 12, argument_type: ArgumentType::Implied, extended: true },
        0x4F => OpCode { code: 0x4F, mnemonic: "BIT 1, A", length: 1, cycles: 8, argument_type: ArgumentType::Implied, extended: true },
        0x50 => OpCode { code: 0x50, mnemonic: "BIT 2, B", length: 1, cycles: 8, argument_type: ArgumentType::Implied, extended: true },
        0x51 => OpCode { code: 0x51, mnemonic: "BIT 2, C", length: 1, cycles: 8, argument_type: ArgumentType::Implied, extended: true },
        0x52 => OpCode { code: 0x52, mnemonic: "BIT 2, D", length: 1, cycles: 8, argument_type: ArgumentType::Implied, extended: true },
        0x53 => OpCode { code: 0x53, mnemonic: "BIT 2, E", length: 1, cycles: 8, argument_type: ArgumentType::Implied, extended: true },
        0x54 => OpCode { code: 0x54, mnemonic: "BIT 2, H", length: 1, cycles: 8, argument_type: ArgumentType::Implied, extended: true },
        0x55 => OpCode { code: 0x55, mnemonic: "BIT 2, L", length: 1, cycles: 8, argument_type: ArgumentType::Implied, extended: true },
        0x56 => OpCode { code: 0x56, mnemonic: "BIT 2, (HL)", length: 1, cycles: 12, argument_type: ArgumentType::Implied, extended: true },
        0x57 => OpCode { code: 0x57, mnemonic: "BIT 2, A", length: 1, cycles: 8, argument_type: ArgumentType::Implied, extended: true },
        0x58 => OpCode { code: 0x58, mnemonic: "BIT 3, B", length: 1, cycles: 8, argument_type: ArgumentType::Implied, extended: true },
        0x59 => OpCode { code: 0x59, mnemonic: "BIT 3, C", length: 1, cycles: 8, argument_type: ArgumentType::Implied, extended: true },
        0x5A => OpCode { code: 0x5A, mnemonic: "BIT 3, D", length: 1, cycles: 8, argument_type: ArgumentType::Implied, extended: true },
        0x5B => OpCode { code: 0x5B, mnemonic: "BIT 3, E", length: 1, cycles: 8, argument_type: ArgumentType::Implied, extended: true },
        0x5C => OpCode { code: 0x5C, mnemonic: "BIT 3, H", length: 1, cycles: 8, argument_type: ArgumentType::Implied, extended: true },
        0x5D => OpCode { code: 0x5D, mnemonic: "BIT 3, L", length: 1, cycles: 8, argument_type: ArgumentType::Implied, extended: true },
        0x5E => OpCode { code: 0x5E, mnemonic: "BIT 3, (HL)", length: 1, cycles: 12, argument_type: ArgumentType::Implied, extended: true },
        0x5F => OpCode { code: 0x5F, mnemonic: "BIT 3, A", length: 1, cycles: 8, argument_type: ArgumentType::Implied, extended: true },
        0x60 => OpCode { code: 0x60, mnemonic: "BIT 4, B", length: 1, cycles: 8, argument_type: ArgumentType::Implied, extended: true },
        0x61 => OpCode { code: 0x61, mnemonic: "BIT 4, C", length: 1, cycles: 8, argument_type: ArgumentType::Implied, extended: true },
        0x62 => OpCode { code: 0x62, mnemonic: "BIT 4, D", length: 1, cycles: 8, argument_type: ArgumentType::Implied, extended: true },
        0x63 => OpCode { code: 0x63, mnemonic: "BIT 4, E", length: 1, cycles: 8, argument_type: ArgumentType::Implied, extended: true },
        0x64 => OpCode { code: 0x64, mnemonic: "BIT 4, H", length: 1, cycles: 8, argument_type: ArgumentType::Implied, extended: true },
        0x65 => OpCode { code: 0x65, mnemonic: "BIT 4, L", length: 1, cycles: 8, argument_type: ArgumentType::Implied, extended: true },
        0x66 => OpCode { code: 0x66, mnemonic: "BIT 4, (HL)", length: 1, cycles: 12, argument_type: ArgumentType::Implied, extended: true },
        0x67 => OpCode { code: 0x67, mnemonic: "BIT 4, A", length: 1, cycles: 8, argument_type: ArgumentType::Implied, extended: true },
        0x68 => OpCode { code: 0x68, mnemonic: "BIT 5, B", length: 1, cycles: 8, argument_type: ArgumentType::Implied, extended: true },
        0x69 => OpCode { code: 0x69, mnemonic: "BIT 5, C", length: 1, cycles: 8, argument_type: ArgumentType::Implied, extended: true },
        0x6A => OpCode { code: 0x6A, mnemonic: "BIT 5, D", length: 1, cycles: 8, argument_type: ArgumentType::Implied, extended: true },
        0x6B => OpCode { code: 0x6B, mnemonic: "BIT 5, E", length: 1, cycles: 8, argument_type: ArgumentType::Implied, extended: true },
        0x6C => OpCode { code: 0x6C, mnemonic: "BIT 5, H", length: 1, cycles: 8, argument_type: ArgumentType::Implied, extended: true },
        0x6D => OpCode { code: 0x6D, mnemonic: "BIT 5, L", length: 1, cycles: 8, argument_type: ArgumentType::Implied, extended: true },
        0x6E => OpCode { code: 0x6E, mnemonic: "BIT 5, (HL)", length: 1, cycles: 12, argument_type: ArgumentType::Implied, extended: true },
        0x6F => OpCode { code: 0x6F, mnemonic: "BIT 5, A", length: 1, cycles: 8, argument_type: ArgumentType::Implied, extended: true },
        0x70 => OpCode { code: 0x70, mnemonic: "BIT 6, B", length: 1, cycles: 8, argument_type: ArgumentType::Implied, extended: true },
        0x71 => OpCode { code: 0x71, mnemonic: "BIT 6, C", length: 1, cycles: 8, argument_type: ArgumentType::Implied, extended: true },
        0x72 => OpCode { code: 0x72, mnemonic: "BIT 6, D", length: 1, cycles: 8, argument_type: ArgumentType::Implied, extended: true },
        0x73 => OpCode { code: 0x73, mnemonic: "BIT 6, E", length: 1, cycles: 8, argument_type: ArgumentType::Implied, extended: true },
        0x74 => OpCode { code: 0x74, mnemonic: "BIT 6, H", length: 1, cycles: 8, argument_type: ArgumentType::Implied, extended: true },
        0x75 => OpCode { code: 0x75, mnemonic: "BIT 6, L", length: 1, cycles: 8, argument_type: ArgumentType::Implied, extended: true },
        0x76 => OpCode { code: 0x76, mnemonic: "BIT 6, (HL)", length: 1, cycles: 12, argument_type: ArgumentType::Implied, extended: true },
        0x77 => OpCode { code: 0x77, mnemonic: "BIT 6, A", length: 1, cycles: 8, argument_type: ArgumentType::Implied, extended: true },
        0x78 => OpCode { code: 0x78, mnemonic: "BIT 7, B", length: 1, cycles: 8, argument_type: ArgumentType::Implied, extended: true },
        0x79 => OpCode { code: 0x79, mnemonic: "BIT 7, C", length: 1, cycles: 8, argument_type: ArgumentType::Implied, extended: true },
        0x7A => OpCode { code: 0x7A, mnemonic: "BIT 7, D", length: 1, cycles: 8, argument_type: ArgumentType::Implied, extended: true },
        0x7B => OpCode { code: 0x7B, mnemonic: "BIT 7, E", length: 1, cycles: 8, argument_type: ArgumentType::Implied, extended: true },
        0x7C => OpCode { code: 0x7C, mnemonic: "BIT 7, H", length: 1, cycles: 8, argument_type: ArgumentType::Implied, extended: true },
        0x7D => OpCode { code: 0x7D, mnemonic: "BIT 7, L", length: 1, cycles: 8, argument_type: ArgumentType::Implied, extended: true },
        0x7E => OpCode { code: 0x7E, mnemonic: "BIT 7, (HL)", length: 1, cycles: 12, argument_type: ArgumentType::Implied, extended: true },
        0x7F => OpCode { code: 0x7F, mnemonic: "BIT 7, A", length: 1, cycles: 8, argument_type: ArgumentType::Implied, extended: true },
        0x80 => OpCode { code: 0x80, mnemonic: "RES 0, B", length: 1, cycles: 8, argument_type: ArgumentType::Implied, extended: true },
        0x81 => OpCode { code: 0x81, mnemonic: "RES 0, C", length: 1, cycles: 8, argument_type: ArgumentType::Implied, extended: true },
        0x82 => OpCode { code: 0x82, mnemonic: "RES 0, D", length: 1, cycles: 8, argument_type: ArgumentType::Implied, extended: true },
        0x83 => OpCode { code: 0x83, mnemonic: "RES 0, E", length: 1, cycles: 8, argument_type: ArgumentType::Implied, extended: true },
        0x84 => OpCode { code: 0x84, mnemonic: "RES 0, H", length: 1, cycles: 8, argument_type: ArgumentType::Implied, extended: true },
        0x85 => OpCode { code: 0x85, mnemonic: "RES 0, L", length: 1, cycles: 8, argument_type: ArgumentType::Implied, extended: true },
        0x86 => OpCode { code: 0x86, mnemonic: "RES 0, (HL)", length: 1, cycles: 16, argument_type: ArgumentType::Implied, extended: true },
        0x87 => OpCode { code: 0x87, mnemonic: "RES 0, A", length: 1, cycles: 8, argument_type: ArgumentType::Implied, extended: true },
        0x88 => OpCode { code: 0x88, mnemonic: "RES 1, B", length: 1, cycles: 8, argument_type: ArgumentType::Implied, extended: true },
        0x89 => OpCode { code: 0x89, mnemonic: "RES 1, C", length: 1, cycles: 8, argument_type: ArgumentType::Implied, extended: true },
        0x8A => OpCode { code: 0x8A, mnemonic: "RES 1, D", length: 1, cycles: 8, argument_type: ArgumentType::Implied, extended: true },
        0x8B => OpCode { code: 0x8B, mnemonic: "RES 1, E", length: 1, cycles: 8, argument_type: ArgumentType::Implied, extended: true },
        0x8C => OpCode { code: 0x8C, mnemonic: "RES 1, H", length: 1, cycles: 8, argument_type: ArgumentType::Implied, extended: true },
        0x8D => OpCode { code: 0x8D, mnemonic: "RES 1, L", length: 1, cycles: 8, argument_type: ArgumentType::Implied, extended: true },
        0x8E => OpCode { code: 0x8E, mnemonic: "RES 1, (HL)", length: 1, cycles: 16, argument_type: ArgumentType::Implied, extended: true },
        0x8F => OpCode { code: 0x8F, mnemonic: "RES 1, A", length: 1, cycles: 8, argument_type: ArgumentType::Implied, extended: true },
        0x90 => OpCode { code: 0x90, mnemonic: "RES 2, B", length: 1, cycles: 8, argument_type: ArgumentType::Implied, extended: true },
        0x91 => OpCode { code: 0x91, mnemonic: "RES 2, C", length: 1, cycles: 8, argument_type: ArgumentType::Implied, extended: true },
        0x92 => OpCode { code: 0x92, mnemonic: "RES 2, D", length: 1, cycles: 8, argument_type: ArgumentType::Implied, extended: true },
        0x93 => OpCode { code: 0x93, mnemonic: "RES 2, E", length: 1, cycles: 8, argument_type: ArgumentType::Implied, extended: true },
        0x94 => OpCode { code: 0x94, mnemonic: "RES 2, H", length: 1, cycles: 8, argument_type: ArgumentType::Implied, extended: true },
        0x95 => OpCode { code: 0x95, mnemonic: "RES 2, L", length: 1, cycles: 8, argument_type: ArgumentType::Implied, extended: true },
        0x96 => OpCode { code: 0x96, mnemonic: "RES 2, (HL)", length: 1, cycles: 16, argument_type: ArgumentType::Implied, extended: true },
        0x97 => OpCode { code: 0x97, mnemonic: "RES 2, A", length: 1, cycles: 8, argument_type: ArgumentType::Implied, extended: true },
        0x98 => OpCode { code: 0x98, mnemonic: "RES 3, B", length: 1, cycles: 8, argument_type: ArgumentType::Implied, extended: true },
        0x99 => OpCode { code: 0x99, mnemonic: "RES 3, C", length: 1, cycles: 8, argument_type: ArgumentType::Implied, extended: true },
        0x9A => OpCode { code: 0x9A, mnemonic: "RES 3, D", length: 1, cycles: 8, argument_type: ArgumentType::Implied, extended: true },
        0x9B => OpCode { code: 0x9B, mnemonic: "RES 3, E", length: 1, cycles: 8, argument_type: ArgumentType::Implied, extended: true },
        0x9C => OpCode { code: 0x9C, mnemonic: "RES 3, H", length: 1, cycles: 8, argument_type: ArgumentType::Implied, extended: true },
        0x9D => OpCode { code: 0x9D, mnemonic: "RES 3, L", length: 1, cycles: 8, argument_type: ArgumentType::Implied, extended: true },
        0x9E => OpCode { code: 0x9E, mnemonic: "RES 3, (HL)", length: 1, cycles: 16, argument_type: ArgumentType::Implied, extended: true },
        0x9F => OpCode { code: 0x9F, mnemonic: "RES 3, A", length: 1, cycles: 8, argument_type: ArgumentType::Implied, extended: true },
        0xA0 => OpCode { code: 0xA0, mnemonic: "RES 4, B", length: 1, cycles: 8, argument_type: ArgumentType::Implied, extended: true },
        0xA1 => OpCode { code: 0xA1, mnemonic: "RES 4, C", length: 1, cycles: 8, argument_type: ArgumentType::Implied, extended: true },
        0xA2 => OpCode { code: 0xA2, mnemonic: "RES 4, D", length: 1, cycles: 8, argument_type: ArgumentType::Implied, extended: true },
        0xA3 => OpCode { code: 0xA3, mnemonic: "RES 4, E", length: 1, cycles: 8, argument_type: ArgumentType::Implied, extended: true },
        0xA4 => OpCode { code: 0xA4, mnemonic: "RES 4, H", length: 1, cycles: 8, argument_type: ArgumentType::Implied, extended: true },
        0xA5 => OpCode { code: 0xA5, mnemonic: "RES 4, L", length: 1, cycles: 8, argument_type: ArgumentType::Implied, extended: true },
        0xA6 => OpCode { code: 0xA6, mnemonic: "RES 4, (HL)", length: 1, cycles: 16, argument_type: ArgumentType::Implied, extended: true },
        0xA7 => OpCode { code: 0xA7, mnemonic: "RES 4, A", length: 1, cycles: 8, argument_type: ArgumentType::Implied, extended: true },
        0xA8 => OpCode { code: 0xA8, mnemonic: "RES 5, B", length: 1, cycles: 8, argument_type: ArgumentType::Implied, extended: true },
        0xA9 => OpCode { code: 0xA9, mnemonic: "RES 5, C", length: 1, cycles: 8, argument_type: ArgumentType::Implied, extended: true },
        0xAA => OpCode { code: 0xAA, mnemonic: "RES 5, D", length: 1, cycles: 8, argument_type: ArgumentType::Implied, extended: true },
        0xAB => OpCode { code: 0xAB, mnemonic: "RES 5, E", length: 1, cycles: 8, argument_type: ArgumentType::Implied, extended: true },
        0xAC => OpCode { code: 0xAC, mnemonic: "RES 5, H", length: 1, cycles: 8, argument_type: ArgumentType::Implied, extended: true },
        0xAD => OpCode { code: 0xAD, mnemonic: "RES 5, L", length: 1, cycles: 8, argument_type: ArgumentType::Implied, extended: true },
        0xAE => OpCode { code: 0xAE, mnemonic: "RES 5, (HL)", length: 1, cycles: 16, argument_type: ArgumentType::Implied, extended: true },
        0xAF => OpCode { code: 0xAF, mnemonic: "RES 5, A", length: 1, cycles: 8, argument_type: ArgumentType::Implied, extended: true },
        0xB0 => OpCode { code: 0xB0, mnemonic: "RES 6, B", length: 1, cycles: 8, argument_type: ArgumentType::Implied, extended: true },
        0xB1 => OpCode { code: 0xB1, mnemonic: "RES 6, C", length: 1, cycles: 8, argument_type: ArgumentType::Implied, extended: true },
        0xB2 => OpCode { code: 0xB2, mnemonic: "RES 6, D", length: 1, cycles: 8, argument_type: ArgumentType::Implied, extended: true },
        0xB3 => OpCode { code: 0xB3, mnemonic: "RES 6, E", length: 1, cycles: 8, argument_type: ArgumentType::Implied, extended: true },
        0xB4 => OpCode { code: 0xB4, mnemonic: "RES 6, H", length: 1, cycles: 8, argument_type: ArgumentType::Implied, extended: true },
        0xB5 => OpCode { code: 0xB5, mnemonic: "RES 6, L", length: 1, cycles: 8, argument_type: ArgumentType::Implied, extended: true },
        0xB6 => OpCode { code: 0xB6, mnemonic: "RES 6, (HL)", length: 1, cycles: 16, argument_type: ArgumentType::Implied, extended: true },
        0xB7 => OpCode { code: 0xB7, mnemonic: "RES 6, A", length: 1, cycles: 8, argument_type: ArgumentType::Implied, extended: true },
        0xB8 => OpCode { code: 0xB8, mnemonic: "RES 7, B", length: 1, cycles: 8, argument_type: ArgumentType::Implied, extended: true },
        0xB9 => OpCode { code: 0xB9, mnemonic: "RES 7, C", length: 1, cycles: 8, argument_type: ArgumentType::Implied, extended: true },
        0xBA => OpCode { code: 0xBA, mnemonic: "RES 7, D", length: 1, cycles: 8, argument_type: ArgumentType::Implied, extended: true },
        0xBB => OpCode { code: 0xBB, mnemonic: "RES 7, E", length: 1, cycles: 8, argument_type: ArgumentType::Implied, extended: true },
        0xBC => OpCode { code: 0xBC, mnemonic: "RES 7, H", length: 1, cycles: 8, argument_type: ArgumentType::Implied, extended: true },
        0xBD => OpCode { code: 0xBD, mnemonic: "RES 7, L", length: 1, cycles: 8, argument_type: ArgumentType::Implied, extended: true },
        0xBE => OpCode { code: 0xBE, mnemonic: "RES 7, (HL)", length: 1, cycles: 16, argument_type: ArgumentType::Implied, extended: true },
        0xBF => OpCode { code: 0xBF, mnemonic: "RES 7, A", length: 1, cycles: 8, argument_type: ArgumentType::Implied, extended: true },
        0xC0 => OpCode { code: 0xC0, mnemonic: "SET 0, B", length: 1, cycles: 8, argument_type: ArgumentType::Implied, extended: true },
        0xC1 => OpCode { code: 0xC1, mnemonic: "SET 0, C", length: 1, cycles: 8, argument_type: ArgumentType::Implied, extended: true },
        0xC2 => OpCode { code: 0xC2, mnemonic: "SET 0, D", length: 1, cycles: 8, argument_type: ArgumentType::Implied, extended: true },
        0xC3 => OpCode { code: 0xC3, mnemonic: "SET 0, E", length: 1, cycles: 8, argument_type: ArgumentType::Implied, extended: true },
        0xC4 => OpCode { code: 0xC4, mnemonic: "SET 0, H", length: 1, cycles: 8, argument_type: ArgumentType::Implied, extended: true },
        0xC5 => OpCode { code: 0xC5, mnemonic: "SET 0, L", length: 1, cycles: 8, argument_type: ArgumentType::Implied, extended: true },
        0xC6 => OpCode { code: 0xC6, mnemonic: "SET 0, (HL)", length: 1, cycles: 16, argument_type: ArgumentType::Implied, extended: true },
        0xC7 => OpCode { code: 0xC7, mnemonic: "SET 0, A", length: 1, cycles: 8, argument_type: ArgumentType::Implied, extended: true },
        0xC8 => OpCode { code: 0xC8, mnemonic: "SET 1, B", length: 1, cycles: 8, argument_type: ArgumentType::Implied, extended: true },
        0xC9 => OpCode { code: 0xC9, mnemonic: "SET 1, C", length: 1, cycles: 8, argument_type: ArgumentType::Implied, extended: true },
        0xCA => OpCode { code: 0xCA, mnemonic: "SET 1, D", length: 1, cycles: 8, argument_type: ArgumentType::Implied, extended: true },
        0xCB => OpCode { code: 0xCB, mnemonic: "SET 1, E", length: 1, cycles: 8, argument_type: ArgumentType::Implied, extended: true },
        0xCC => OpCode { code: 0xCC, mnemonic: "SET 1, H", length: 1, cycles: 8, argument_type: ArgumentType::Implied, extended: true },
        0xCD => OpCode { code: 0xCD, mnemonic: "SET 1, L", length: 1, cycles: 8, argument_type: ArgumentType::Implied, extended: true },
        0xCE => OpCode { code: 0xCE, mnemonic: "SET 1, (HL)", length: 1, cycles: 16, argument_type: ArgumentType::Implied, extended: true },
        0xCF => OpCode { code: 0xCF, mnemonic: "SET 1, A", length: 1, cycles: 8, argument_type: ArgumentType::Implied, extended: true },
        0xD0 => OpCode { code: 0xD0, mnemonic: "SET 2, B", length: 1, cycles: 8, argument_type: ArgumentType::Implied, extended: true },
        0xD1 => OpCode { code: 0xD1, mnemonic: "SET 2, C", length: 1, cycles: 8, argument_type: ArgumentType::Implied, extended: true },
        0xD2 => OpCode { code: 0xD2, mnemonic: "SET 2, D", length: 1, cycles: 8, argument_type: ArgumentType::Implied, extended: true },
        0xD3 => OpCode { code: 0xD3, mnemonic: "SET 2, E", length: 1, cycles: 8, argument_type: ArgumentType::Implied, extended: true },
        0xD4 => OpCode { code: 0xD4, mnemonic: "SET 2, H", length: 1, cycles: 8, argument_type: ArgumentType::Implied, extended: true },
        0xD5 => OpCode { code: 0xD5, mnemonic: "SET 2, L", length: 1, cycles: 8, argument_type: ArgumentType::Implied, extended: true },
        0xD6 => OpCode { code: 0xD6, mnemonic: "SET 2, (HL)", length: 1, cycles: 16, argument_type: ArgumentType::Implied, extended: true },
        0xD7 => OpCode { code: 0xD7, mnemonic: "SET 2, A", length: 1, cycles: 8, argument_type: ArgumentType::Implied, extended: true },
        0xD8 => OpCode { code: 0xD8, mnemonic: "SET 3, B", length: 1, cycles: 8, argument_type: ArgumentType::Implied, extended: true },
        0xD9 => OpCode { code: 0xD9, mnemonic: "SET 3, C", length: 1, cycles: 8, argument_type: ArgumentType::Implied, extended: true },
        0xDA => OpCode { code: 0xDA, mnemonic: "SET 3, D", length: 1, cycles: 8, argument_type: ArgumentType::Implied, extended: true },
        0xDB => OpCode { code: 0xDB, mnemonic: "SET 3, E", length: 1, cycles: 8, argument_type: ArgumentType::Implied, extended: true },
        0xDC => OpCode { code: 0xDC, mnemonic: "SET 3, H", length: 1, cycles: 8, argument_type: ArgumentType::Implied, extended: true },
        0xDD => OpCode { code: 0xDD, mnemonic: "SET 3, L", length: 1, cycles: 8, argument_type: ArgumentType::Implied, extended: true },
        0xDE => OpCode { code: 0xDE, mnemonic: "SET 3, (HL)", length: 1, cycles: 16, argument_type: ArgumentType::Implied, extended: true },
        0xDF => OpCode { code: 0xDF, mnemonic: "SET 3, A", length: 1, cycles: 8, argument_type: ArgumentType::Implied, extended: true },
        0xE0 => OpCode { code: 0xE0, mnemonic: "SET 4, B", length: 1, cycles: 8, argument_type: ArgumentType::Implied, extended: true },
        0xE1 => OpCode { code: 0xE1, mnemonic: "SET 4, C", length: 1, cycles: 8, argument_type: ArgumentType::Implied, extended: true },
        0xE2 => OpCode { code: 0xE2, mnemonic: "SET 4, D", length: 1, cycles: 8, argument_type: ArgumentType::Implied, extended: true },
        0xE3 => OpCode { code: 0xE3, mnemonic: "SET 4, E", length: 1, cycles: 8, argument_type: ArgumentType::Implied, extended: true },
        0xE4 => OpCode { code: 0xE4, mnemonic: "SET 4, H", length: 1, cycles: 8, argument_type: ArgumentType::Implied, extended: true },
        0xE5 => OpCode { code: 0xE5, mnemonic: "SET 4, L", length: 1, cycles: 8, argument_type: ArgumentType::Implied, extended: true },
        0xE6 => OpCode { code: 0xE6, mnemonic: "SET 4, (HL)", length: 1, cycles: 16, argument_type: ArgumentType::Implied, extended: true },
        0xE7 => OpCode { code: 0xE7, mnemonic: "SET 4, A", length: 1, cycles: 8, argument_type: ArgumentType::Implied, extended: true },
        0xE8 => OpCode { code: 0xE8, mnemonic: "SET 5, B", length: 1, cycles: 8, argument_type: ArgumentType::Implied, extended: true },
        0xE9 => OpCode { code: 0xE9, mnemonic: "SET 5, C", length: 1, cycles: 8, argument_type: ArgumentType::Implied, extended: true },
        0xEA => OpCode { code: 0xEA, mnemonic: "SET 5, D", length: 1, cycles: 8, argument_type: ArgumentType::Implied, extended: true },
        0xEB => OpCode { code: 0xEB, mnemonic: "SET 5, E", length: 1, cycles: 8, argument_type: ArgumentType::Implied, extended: true },
        0xEC => OpCode { code: 0xEC, mnemonic: "SET 5, H", length: 1, cycles: 8, argument_type: ArgumentType::Implied, extended: true },
        0xED => OpCode { code: 0xED, mnemonic: "SET 5, L", length: 1, cycles: 8, argument_type: ArgumentType::Implied, extended: true },
        0xEE => OpCode { code: 0xEE, mnemonic: "SET 5, (HL)", length: 1, cycles: 16, argument_type: ArgumentType::Implied, extended: true },
        0xEF => OpCode { code: 0xEF, mnemonic: "SET 5, A", length: 1, cycles: 8, argument_type: ArgumentType::Implied, extended: true },
        0xF0 => OpCode { code: 0xF0, mnemonic: "SET 6, B", length: 1, cycles: 8, argument_type: ArgumentType::Implied, extended: true },
        0xF1 => OpCode { code: 0xF1, mnemonic: "SET 6, C", length: 1, cycles: 8, argument_type: ArgumentType::Implied, extended: true },
        0xF2 => OpCode { code: 0xF2, mnemonic: "SET 6, D", length: 1, cycles: 8, argument_type: ArgumentType::Implied, extended: true },
        0xF3 => OpCode { code: 0xF3, mnemonic: "SET 6, E", length: 1, cycles: 8, argument_type: ArgumentType::Implied, extended: true },
        0xF4 => OpCode { code: 0xF4, mnemonic: "SET 6, H", length: 1, cycles: 8, argument_type: ArgumentType::Implied, extended: true },
        0xF5 => OpCode { code: 0xF5, mnemonic: "SET 6, L", length: 1, cycles: 8, argument_type: ArgumentType::Implied, extended: true },
        0xF6 => OpCode { code: 0xF6, mnemonic: "SET 6, (HL)", length: 1, cycles: 16, argument_type: ArgumentType::Implied, extended: true },
        0xF7 => OpCode { code: 0xF7, mnemonic: "SET 6, A", length: 1, cycles: 8, argument_type: ArgumentType::Implied, extended: true },
        0xF8 => OpCode { code: 0xF8, mnemonic: "SET 7, B", length: 1, cycles: 8, argument_type: ArgumentType::Implied, extended: true },
        0xF9 => OpCode { code: 0xF9, mnemonic: "SET 7, C", length: 1, cycles: 8, argument_type: ArgumentType::Implied, extended: true },
        0xFA => OpCode { code: 0xFA, mnemonic: "SET 7, D", length: 1, cycles: 8, argument_type: ArgumentType::Implied, extended: true },
        0xFB => OpCode { code: 0xFB, mnemonic: "SET 7, E", length: 1, cycles: 8, argument_type: ArgumentType::Implied, extended: true },
        0xFC => OpCode { code: 0xFC, mnemonic: "SET 7, H", length: 1, cycles: 8, argument_type: ArgumentType::Implied, extended: true },
        0xFD => OpCode { code: 0xFD, mnemonic: "SET 7, L", length: 1, cycles: 8, argument_type: ArgumentType::Implied, extended: true },
        0xFE => OpCode { code: 0xFE, mnemonic: "SET 7, (HL)", length: 1, cycles: 16, argument_type: ArgumentType::Implied, extended: true },
        _ => OpCode { code: 0xFF, mnemonic: "SET 7, A", length: 1, cycles: 8, argument_type: ArgumentType::Implied, extended: true },
    }
}

/// The instruction that `byte` stands for, after the 0xCB prefix when `extended`.
pub open spec fn spec_opcode(byte: u8, extended: bool) -> Option<OpCode> {
    if extended {
        Some(spec_cb_opcode(byte))
    } else {
        spec_base_opcode(byte)
    }
}

/// The position of an instruction in the search order of `from_mnemonic`:
/// the unprefixed opcodes by byte, then the prefixed ones.
pub open spec fn search_rank(byte: u8, extended: bool) -> int {
    if extended {
        256 + byte as int
    } else {
        byte as int
    }
}

/// Whether the instruction of `byte` has the text `s`.
pub open spec fn mnemonic_is(byte: u8, extended: bool, s: Seq<char>) -> bool {
    spec_opcode(byte, extended) is Some && spec_opcode(byte, extended)->0.mnemonic@ == s
}

impl OpCode {
    /// The instruction that `byte` stands for, after the 0xCB prefix when `extended`.
    pub fn from_byte(byte: u8, extended: bool) -> (r: Option<OpCode>)
        ensures
            r == spec_opcode(byte, extended),
            r matches Some(op) ==> op.code == byte && op.extended == extended,
    {
        if extended {
            Some(Self::from_cb_byte(byte))
        } else {
            Self::from_base_byte(byte)
        }
    }

    /// The first instruction, in the order of `search_rank`, whose text is the
    /// upper-case form of `input`.
    pub fn from_mnemonic(input: &str) -> (r: Option<OpCode>)
        ensures
            match r {
                Some(op) => {
                    &&& spec_opcode(op.code, op.extended) == Some(op)
                    &&& op.mnemonic@ == uppercase(input@)
                    &&& forall|b: u8, e: bool|
                        search_rank(b, e) < search_rank(op.code, op.extended) ==> !mnemonic_is(
                            b,
                            e,
                            uppercase(input@),
                        )
                },
                None => forall|b: u8, e: bool| !mnemonic_is(b, e, uppercase(input@)),
            },
            (forall|i: int| 0 <= i < input@.len() ==> (input@[i] as int) < 0x80) ==> uppercase(input@)
                == input@.map_values(|c: char| ascii_upper(c)),
    {
        let text = to_uppercase(input);
        match Self::search_mnemonic(&text, false) {
            Some(op) => Some(op),
            None => Self::search_mnemonic(&text, true),
        }
    }

    /// The first instruction, by byte, among the unprefixed (or, when
    /// `extended`, the prefixed) ones whose text is `text`.
    fn search_mnemonic(text: &String, extended: bool) -> (r: Option<OpCode>)
        ensures
            match r {
                Some(op) => {
                    &&& spec_opcode(op.code, op.extended) == Some(op)
                    &&& op.extended == extended
                    &&& op.mnemonic@ == text@
                    &&& forall|b: u8| b < op.code ==> !mnemonic_is(b, extended, text@)
                },
                None => forall|b: u8| !mnemonic_is(b, extended, text@),
            },
    {
        let mut b: u16 = 0;
        while b < 256
            invariant
                b <= 256,
                forall|c: u8| c < b ==> !mnemonic_is(c, extended, text@),
            decreases 256 - b,
        {
            if let Some(op) = Self::from_byte(b as u8, extended) {
                let candidate = op.mnemonic.to_owned();
                if candidate == *text {
                    return Some(op);
                }
            }
            b = b + 1;
        }
        None
    }

    fn from_base_byte(byte: u8) -> (r: Option<OpCode>)
        ensures
            r == spec_base_opcode(byte),
            r matches Some(op) ==> op.code == byte && !op.extended,
    {
        match byte {
            0x00 => Some(OpCode { code: 0x00, mnemonic: "NOP", length: 1, cycles: 4, argument_type: ArgumentType::Implied, extended: false }),
            0x01 => Some(OpCode { code: 0x01, mnemonic: "LD BC, {imm16}", length: 3, cycles: 12, argument_type: ArgumentType::Imm16, extended: false }),
            0x02 => Some(OpCode { code: 0x02, mnemonic: "LD (BC), A", length: 1, cycles: 8, argument_type: ArgumentType::Implied, extended: false }),
            0x03 => Some(OpCode { code: 0x03, mnemonic: "INC BC", length: 1, cycles: 8, argument_type: ArgumentType::Implied, extended: false }),
            0x04 => Some(OpCode { code: 0x04, mnemonic: "INC B", length: 1, cycles: 4, argument_type: ArgumentType::Implied, extended: false }),
            0x05 => Some(OpCode { code: 0x05, mnemonic: "DEC B", length: 1, cycles: 4, argument_type: ArgumentType::Implied, extended: false }),
            0x06 => Some(OpCode { code: 0x06, mnemonic: "LD B, {imm8}", length: 2, cycles: 8, argument_type: ArgumentType::Imm8, extended: false }),
            0x07 => Some(OpCode { code: 0x07, mnemonic: "RLCA", length: 1, cycles: 4, argument_type: ArgumentType::Implied, extended: false }),
            0x08 => Some(OpCode { code: 0x08, mnemonic: "LD ({imm16}), SP", length: 3, cycles: 20, argument_type: ArgumentType::Imm16, extended: false }),
            0x09 => Some(OpCode { code: 0x09, mnemonic: "ADD HL, BC", length: 1, cycles: 8, argument_type: ArgumentType::Implied, extended: false }),
            0x0A => Some(OpCode { code: 0x0A, mnemonic: "LD A, (BC)", length: 1, cycles: 8, argument_type: ArgumentType::Implied, extended: false }),
            0x0B => Some(OpCode { code: 0x0B, mnemonic: "DEC BC", length: 1, cycles: 8, argument_type: ArgumentType::Implied, extended: false }),
            0x0C => Some(OpCode { code: 0x0C, mnemonic: "INC C", length: 1, cycles: 4, argument_type: ArgumentType::Implied, extended: false }),
            0x0D => Some(OpCode { code: 0x0D, mnemonic: "DEC C", length: 1, cycles: 4, argument_type: ArgumentType::Implied, extended: false }),
            0x0E => Some(OpCode { code: 0x0E, mnemonic: "LD C, {imm8}", length: 2, cycles: 8, argument_type: ArgumentType::Imm8, extended: false }),
            0x0F => Some(OpCode { code: 0x0F, mnemonic: "RRCA", length: 1, cycles: 4, argument_type: ArgumentType::Implied, extended: false }),
            0x10 => Some(OpCode { code: 0x10, mnemonic: "STOP", length: 2, cycles: 4, argument_type: ArgumentType::Implied, extended: false }),
            0x11 => Some(OpCode { code: 0x11, mnemonic: "LD DE, {imm16}", length: 3, cycles: 12, argument_type: ArgumentType::Imm16, extended: false }),
            0x12 => Some(OpCode { code: 0x12, mnemonic: "LD (DE), A", length: 1, cycles: 8, argument_type: ArgumentType::Implied, extended: false }),
            0x13 => Some(OpCode { code: 0x13, mnemonic: "INC DE", length: 1, cycles: 8, argument_type: ArgumentType::Implied, extended: false }),
            0x14 => Some(OpCode { code: 0x14, mnemonic: "INC D", length: 1, cycles: 4, argument_type: ArgumentType::Implied, extended: false }),
            0x15 => Some(OpCode { code: 0x15, mnemonic: "DEC D", length: 1, cycles: 4, argument_type: ArgumentType::Implied, extended: false }),
            0x16 => Some(OpCode { code: 0x16, mnemonic: "LD D, {imm8}", length: 2, cycles: 8, argument_type: ArgumentType::Imm8, extended: false }),
            0x17 => Some(OpCode { code: 0x17, mnemonic: "RLA", length: 1, cycles: 4, argument_type: ArgumentType::Implied, extended: false }),
            0x18 => Some(OpCode { code: 0x18, mnemonic: "JR {imm8}", length: 2, cycles: 12, argument_type: ArgumentType::Imm8, extended: false }),
            0x19 => Some(OpCode { code: 0x19, mnemonic: "ADD HL, DE", length: 1, cycles: 8, argument_type: ArgumentType::Implied, extended: false }),
            0x1A => Some(OpCode { code: 0x1A, mnemonic: "LD A, (DE)", length: 1, cycles: 8, argument_type: ArgumentType::Implied, extended: false }),
            0x1B => Some(OpCode { code: 0x1B, mnemonic: "DEC DE", length: 1, cycles: 8, argument_type: ArgumentType::Implied, extended: false }),
            0x1C => Some(OpCode { code: 0x1C, mnemonic: "INC E", length: 1, cycles: 4, argument_type: ArgumentType::Implied, extended: false }),
            0x1D => Some(OpCode { code: 0x1D, mnemonic: "DEC E", length: 1, cycles: 4, argument_type: ArgumentType::Implied, extended: false }),
            0x1E => Some(OpCode { code: 0x1E, mnemonic: "LD E, {imm8}", length: 2, cycles: 8, argument_type: ArgumentType::Imm8, extended: false }),
            0x1F => Some(OpCode { code: 0x1F, mnemonic: "RRA", length: 1, cycles: 4, argument_type: ArgumentType::Implied, extended: false }),
            0x20 => Some(OpCode { code: 0x20, mnemonic: "JR NZ, {imm8}", length: 2, cycles: 8, argument_type: ArgumentType::Imm8, extended: false }),
            0x21 => Some(OpCode { code: 0x21, mnemonic: "LD HL, {imm16}", length: 3, cycles: 12, argument_type: ArgumentType::Imm16, extended: false }),
            0x22 => Some(OpCode { code: 0x22, mnemonic: "LD (HLI), A", length: 1, cycles: 8, argument_type: ArgumentType::Implied, extended: false }),
            0x23 => Some(OpCode { code: 0x23, mnemonic: "INC HL", length: 1, cycles: 8, argument_type: ArgumentType::Implied, extended: false }),
            0x24 => Some(OpCode { code: 0x24, mnemonic: "INC H", length: 1, cycles: 4, argument_type: ArgumentType::Implied, extended: false }),
            0x25 => Some(OpCode { code: 0x25, mnemonic: "DEC H", length: 1, cycles: 4, argument_type: ArgumentType::Implied, extended: false }),
            0x26 => Some(OpCode { code: 0x26, mnemonic: "LD H, {imm8}", length: 2, cycles: 8, argument_type: ArgumentType::Imm8, extended: false }),
            0x27 => Some(OpCode { code: 0x27, mnemonic: "DAA", length: 1, cycles: 4, argument_type: ArgumentType::Implied, extended: false }),
            0x28 => Some(OpCode { code: 0x28, mnemonic: "JR Z, {imm8}", length: 2, cycles: 8, argument_type: ArgumentType::Imm8, extended: false }),
            0x29 => Some(OpCode { code: 0x29, mnemonic: "ADD HL, HL", length: 1, cycles: 8, argument_type: ArgumentType::Implied, extended: false }),
            0x2A => Some(OpCode { code: 0x2A, mnemonic: "LD A, (HLI)", length: 1, cycles: 8, argument_type: ArgumentType::Implied, extended: false }),
            0x2B => Some(OpCode { code: 0x2B, mnemonic: "DEC HL", length: 1, cycles: 8, argument_type: ArgumentType::Implied, extended: false }),
            0x2C => Some(OpCode { code: 0x2C, mnemonic: "INC L", length: 1, cycles: 4, argument_type: ArgumentType::Implied, extended: false }),
            0x2D => Some(OpCode { code: 0x2D, mnemonic: "DEC L", length: 1, cycles: 4, argument_type: ArgumentType::Implied, extended: false }),
            0x2E => Some(OpCode { code: 0x2E, mnemonic: "LD L, {imm8}", length: 2, cycles: 8, argument_type: ArgumentType::Imm8, extended: false }),
            0x2F => Some(OpCode { code: 0x2F, mnemonic: "CPL", length: 1, cycles: 4, argument_type: ArgumentType::Implied, extended: false }),
            0x30 => Some(OpCode { code: 0x30, mnemonic: "JR NC, {imm8}", length: 2, cycles: 8, argument_type: ArgumentType::Imm8, extended: false }),
            0x31 => Some(OpCode { code: 0x31, mnemonic: "LD SP, {imm16}", length: 3, cycles: 12, argument_type: ArgumentType::Imm16, extended: false }),
            0x32 => Some(OpCode { code: 0x32, mnemonic: "LD (HLD), A", length: 1, cycles: 8, argument_type: ArgumentType::Implied, extended: false }),
            0x33 => Some(OpCode { code: 0x33, mnemonic: "INC SP", length: 1, cycles: 8, argument_type: ArgumentType::Implied, extended: false }),
            0x34 => Some(OpCode { code: 0x34, mnemonic: "INC (HL)", length: 1, cycles: 12, argument_type: ArgumentType::Implied, extended: false }),
            0x35 => Some(OpCode { code: 0x35, mnemonic: "DEC (HL)", length: 1, cycles: 12, argument_type: ArgumentType::Implied, extended: false }),
            0x36 => Some(OpCode { code: 0x36, mnemonic: "LD (HL), {imm8}", length: 2, cycles: 12, argument_type: ArgumentType::Imm8, extended: false }),
            0x37 => Some(OpCode { code: 0x37, mnemonic: "SCF", length: 1, cycles: 4, argument_type: ArgumentType::Implied, extended: false }),
            0x38 => Some(OpCode { code: 0x38, mnemonic: "JR C, {imm8}", length: 2, cycles: 8, argument_type: ArgumentType::Imm8, extended: false }),
            0x39 => Some(OpCode { code: 0x39, mnemonic: "ADD HL, SP", length: 1, cycles: 8, argument_type: ArgumentType::Implied, extended: false }),
            0x3A => Some(OpCode { code: 0x3A, mnemonic: "LD A, (HLD)", length: 1, cycles: 8, argument_type: ArgumentType::Implied, extended: false }),
            0x3B => Some(OpCode { code: 0x3B, mnemonic: "DEC SP", length: 1, cycles: 8, argument_type: ArgumentType::Implied, extended: false }),
            0x3C => Some(OpCode { code: 0x3C, mnemonic: "INC A", length: 1, cycles: 4, argument_type: ArgumentType::Implied, extended: false }),
            0x3D => Some(OpCode { code: 0x3D, mnemonic: "DEC A", length: 1, cycles: 4, argument_type: ArgumentType::Implied, extended: false }),
            0x3E => Some(OpCode { code: 0x3E, mnemonic: "LD A, {imm8}", length: 2, cycles: 8, argument_type: ArgumentType::Imm8, extended: false }),
            0x3F => Some(OpCode { code: 0x3F, mnemonic: "CCF", length: 1, cycles: 4, argument_type: ArgumentType::Implied, extended: false }),
            0x40 => Some(OpCode { code: 0x40, mnemonic: "LD B, B", length: 1, cycles: 4, argument_type: ArgumentType::Implied, extended: false }),
            0x41 => Some(OpCode { code: 0x41, mnemonic: "LD B, C", length: 1, cycles: 4, argument_type: ArgumentType::Implied, extended: false }),
            0x42 => Some(OpCode { code: 0x42, mnemonic: "LD B, D", length: 1, cycles: 4, argument_type: ArgumentType::Implied, extended: false }),
            0x43 => Some(OpCode { code: 0x43, mnemonic: "LD B, E", length: 1, cycles: 4, argument_type: ArgumentType::Implied, extended: false }),
            0x44 => Some(OpCode { code: 0x44, mnemonic: "LD B, H", length: 1, cycles: 4, argument_type: ArgumentType::Implied, extended: false }),
            0x45 => Some(OpCode { code: 0x45, mnemonic: "LD B, L", length: 1, cycles: 4, argument_type: ArgumentType::Implied, extended: false }),
            0x46 => Some(OpCode { code: 0x46, mnemonic: "LD B, (HL)", length: 1, cycles: 8, argument_type: ArgumentType::Implied, extended: false }),
            0x47 => Some(OpCode { code: 0x47, mnemonic: "LD B, A", length: 1, cycles: 4, argument_type: ArgumentType::Implied, extended: false }),
            0x48 => Some(OpCode { code: 0x48, mnemonic: "LD C, B", length: 1, cycles: 4, argument_type: ArgumentType::Implied, extended: false }),
            0x49 => Some(OpCode { code: 0x49, mnemonic: "LD C, C", length: 1, cycles: 4, argument_type: ArgumentType::Implied, extended: false }),
            0x4A => Some(OpCode { code: 0x4A, mnemonic: "LD C, D", length: 1, cycles: 4, argument_type: ArgumentType::Implied, extended: false }),
            0x4B => Some(OpCode { code: 0x4B, mnemonic: "LD C, E", length: 1, cycles: 4, argument_type: ArgumentType::Implied, extended: false }),
            0x4C => Some(OpCode { code: 0x4C, mnemonic: "LD C, H", length: 1, cycles: 4, argument_type: ArgumentType::Implied, extended: false }),
            0x4D => Some(OpCode { code: 0x4D, mnemonic: "LD C, L", length: 1, cycles: 4, argument_type: ArgumentType::Implied, extended: false }),
            0x4E => Some(OpCode { code: 0x4E, mnemonic: "LD C, (HL)", length: 1, cycles: 8, argument_type: ArgumentType::Implied, extended: false }),
            0x4F => Some(OpCode { code: 0x4F, mnemonic: "LD C, A", length: 1, cycles: 4, argument_type: ArgumentType::Implied, extended: false }),
            0x50 => Some(OpCode { code: 0x50, mnemonic: "LD D, B", length: 1, cycles: 4, argument_type: ArgumentType::Implied, extended: false }),
            0x51 => Some(OpCode { code: 0x51, mnemonic: "LD D, C", length: 1, cycles: 4, argument_type: ArgumentType::Implied, extended: false }),
            0x52 => Some(OpCode { code: 0x52, mnemonic: "LD D, D", length: 1, cycles: 4, argument_type: ArgumentType::Implied, extended: false }),
            0x53 => Some(OpCode { code: 0x53, mnemonic: "LD D, E", length: 1, cycles: 4, argument_type: ArgumentType::Implied, extended: false }),
            0x54 => Some(OpCode { code: 0x54, mnemonic: "LD D, H", length: 1, cycles: 4, argument_type: ArgumentType::Implied, extended: false }),
            0x55 => Some(OpCode { code: 0x55, mnemonic: "LD D, L", length: 1, cycles: 4, argument_type: ArgumentType::Implied, extended: false }),
            0x56 => Some(OpCode { code: 0x56, mnemonic: "LD D, (HL)", length: 1, cycles: 8, argument_type: ArgumentType::Implied, extended: false }),
            0x57 => Some(OpCode { code: 0x57, mnemonic: "LD D, A", length: 1, cycles: 4, argument_type: ArgumentType::Implied, extended: false }),
            0x58 => Some(OpCode { code: 0x58, mnemonic: "LD E, B", length: 1, cycles: 4, argument_type: ArgumentType::Implied, extended: false }),
            0x59 => Some(OpCode { code: 0x59, mnemonic: "LD E, C", length: 1, cycles: 4, argument_type: ArgumentType::Implied, extended: false }),
            0x5A => Some(OpCode { code: 0x5A, mnemonic: "LD E, D", length: 1, cycles: 4, argument_type: ArgumentType::Implied, extended: false }),
            0x5B => Some(OpCode { code: 0x5B, mnemonic: "LD E, E", length: 1, cycles: 4, argument_type: ArgumentType::Implied, extended: false }),
            0x5C => Some(OpCode { code: 0x5C, mnemonic: "LD E, H", length: 1, cycles: 4, argument_type: ArgumentType::Implied, extended: false }),
            0x5D => Some(OpCode { code: 0x5D, mnemonic: "LD E, L", length: 1, cycles: 4, argument_type: ArgumentType::Implied, extended: false }),
            0x5E => Some(OpCode { code: 0x5E, mnemonic: "LD E, (HL)", length: 1, cycles: 8, argument_type: ArgumentType::Implied, extended: false }),
            0x5F => Some(OpCode { code: 0x5F, mnemonic: "LD E, A", length: 1, cycles: 4, argument_type: ArgumentType::Implied, extended: false }),
            0x60 => Some(OpCode { code: 0x60, mnemonic: "LD H, B", length: 1, cycles: 4, argument_type: ArgumentType::Implied, extended: false }),
            0x61 => Some(OpCode { code: 0x61, mnemonic: "LD H, C", length: 1, cycles: 4, argument_type: ArgumentType::Implied, extended: false }),
            0x62 => Some(OpCode { code: 0x62, mnemonic: "LD H, D", length: 1, cycles: 4, argument_type: ArgumentType::Implied, extended: false }),
            0x63 => Some(OpCode { code: 0x63, mnemonic: "LD H, E", length: 1, cycles: 4, argument_type: ArgumentType::Implied, extended: false }),
            0x64 => Some(OpCode { code: 0x64, mnemonic: "LD H, H", length: 1, cycles: 4, argument_type: ArgumentType::Implied, extended: false }),
            0x65 => Some(OpCode { code: 0x65, mnemonic: "LD H, L", length: 1, cycles: 4, argument_type: ArgumentType::Implied, extended: false }),
            0x66 => Some(OpCode { code: 0x66, mnemonic: "LD H, (HL)", length: 1, cycles: 8, argument_type: ArgumentType::Implied, extended: false }),
            0x67 => Some(OpCode { code: 0x67, mnemonic: "LD H, A", length: 1, cycles: 4, argument_type: ArgumentType::Implied, extended: false }),
            0x68 => Some(OpCode { code: 0x68, mnemonic: "LD L, B", length: 1, cycles: 4, argument_type: ArgumentType::Implied, extended: false }),
            0x69 => Some(OpCode { code: 0x69, mnemonic: "LD L, C", length: 1, cycles: 4, argument_type: ArgumentType::Implied, extended: false }),
            0x6A => Some(OpCode { code: 0x6A, mnemonic: "LD L, D", length: 1, cycles: 4, argument_type: ArgumentType::Implied, extended: false }),
            0x6B => Some(OpCode { code: 0x6B, mnemonic: "LD L, E", length: 1, cycles: 4, argument_type: ArgumentType::Implied, extended: false }),
            0x6C => Some(OpCode { code: 0x6C, mnemonic: "LD L, H", length: 1, cycles: 4, argument_type: ArgumentType::Implied, extended: false }),
            0x6D => Some(OpCode { code: 0x6D, mnemonic: "LD L, L", length: 1, cycles: 4, argument_type: ArgumentType::Implied, extended: false }),
            0x6E => Some(OpCode { code: 0x6E, mnemonic: "LD L, (HL)", length: 1, cycles: 8, argument_type: ArgumentType::Implied, extended: false }),
            0x6F => Some(OpCode { code: 0x6F, mnemonic: "LD L, A", length: 1, cycles: 4, argument_type: ArgumentType::Implied, extended: false }),
            0x70 => Some(OpCode { code: 0x70, mnemonic: "LD (HL), B", length: 1, cycles: 8, argument_type: ArgumentType::Implied, extended: false }),
            0x71 => Some(OpCode { code: 0x71, mnemonic: "LD (HL), C", length: 1, cycles: 8, argument_type: ArgumentType::Implied, extended: false }),
            0x72 => Some(OpCode { code: 0x72, mnemonic: "LD (HL), D", length: 1, cycles: 8, argument_type: ArgumentType::Implied, extended: false }),
            0x73 => Some(OpCode { code: 0x73, mnemonic: "LD (HL), E", length: 1, cycles: 8, argument_type: ArgumentType::Implied, extended: false }),
            0x74 => Some(OpCode { code: 0x74, mnemonic: "LD (HL), H", length: 1, cycles: 8, argument_type: ArgumentType::Implied, extended: false }),
            0x75 => Some(OpCode { code: 0x75, mnemonic: "LD (HL), L", length: 1, cycles: 8, argument_type: ArgumentType::Implied, extended: false }),
            0x76 => Some(OpCode { code: 0x76, mnemonic: "HALT", length: 1, cycles: 4, argument_type: ArgumentType::Implied, extended: false }),
            0x77 => Some(OpCode { code: 0x77, mnemonic: "LD (HL), A", length: 1, cycles: 8, argument_type: ArgumentType::Implied, extended: false }),
            0x78 => Some(OpCode { code: 0x78, mnemonic: "LD A, B", length: 1, cycles: 4, argument_type: ArgumentType::Implied, extended: false }),
            0x79 => Some(OpCode { code: 0x79, mnemonic: "LD A, C", length: 1, cycles: 4, argument_type: ArgumentType::Implied, extended: false }),
            0x7A => Some(OpCode { code: 0x7A, mnemonic: "LD A, D", length: 1, cycles: 4, argument_type: ArgumentType::Implied, extended: false }),
            0x7B => Some(OpCode { code: 0x7B, mnemonic: "LD A, E", length: 1, cycles: 4, argument_type: ArgumentType::Implied, extended: false }),
            0x7C => Some(OpCode { code: 0x7C, mnemonic: "LD A, H", length: 1, cycles: 4, argument_type: ArgumentType::Implied, extended: false }),
            0x7D => Some(OpCode { code: 0x7D, mnemonic: "LD A, L", length: 1, cycles: 4, argument_type: ArgumentType::Implied, extended: false }),
            0x7E => Some(OpCode { code: 0x7E, mnemonic: "LD A, (HL)", length: 1, cycles: 8, argument_type: ArgumentType::Implied, extended: false }),
            0x7F => Some(OpCode { code: 0x7F, mnemonic: "LD A, A", length: 1, cycles: 4, argument_type: ArgumentType::Implied, extended: false }),
            0x80 => Some(OpCode { code: 0x80, mnemonic: "ADD A, B", length: 1, cycles: 4, argument_type: ArgumentType::Implied, extended: false }),
            0x81 => Some(OpCode { code: 0x81, mnemonic: "ADD A, C", length: 1, cycles: 4, argument_type: ArgumentType::Implied, extended: false }),
            0x82 => Some(OpCode { code: 0x82, mnemonic: "ADD A, D", length: 1, cycles: 4, argument_type: ArgumentType::Implied, extended: false }),
            0x83 => Some(OpCode { code: 0x83, mnemonic: "ADD A, E", length: 1, cycles: 4, argument_type: ArgumentType::Implied, extended: false }),
            0x84 => Some(OpCode { code: 0x84, mnemonic: "ADD A, H", length: 1, cycles: 4, argument_type: ArgumentType::Implied, extended: false }),
            0x85 => Some(OpCode { code: 0x85, mnemonic: "ADD A, L", length: 1, cycles: 4, argument_type: ArgumentType::Implied, extended: false }),
            0x86 => Some(OpCode { code: 0x86, mnemonic: "ADD A, (HL)", length: 1, cycles: 8, argument_type: ArgumentType::Implied, extended: false }),
            0x87 => Some(OpCode { code: 0x87, mnemonic: "ADD A, A", length: 1, cycles: 4, argument_type: ArgumentType::Implied, extended: false }),
            0x88 => Some(OpCode { code: 0x88, mnemonic: "ADC A, B", length: 1, cycles: 4, argument_type: ArgumentType::Implied, extended: false }),
            0x89 => Some(OpCode { code: 0x89, mnemonic: "ADC A, C", length: 1, cycles: 4, argument_type: ArgumentType::Implied, extended: false }),
            0x8A => Some(OpCode { code: 0x8A, mnemonic: "ADC A, D", length: 1, cycles: 4, argument_type: ArgumentType::Implied, extended: false }),
            0x8B => Some(OpCode { code: 0x8B, mnemonic: "ADC A, E", length: 1, cycles: 4, argument_type: ArgumentType::Implied, extended: false }),
            0x8C => Some(OpCode { code: 0x8C, mnemonic: "ADC A, H", length: 1, cycles: 4, argument_type: ArgumentType::Implied, extended: false }),
            0x8D => Some(OpCode { code: 0x8D, mnemonic: "ADC A, L", length: 1, cycles: 4, argument_type: ArgumentType::Implied, extended: false }),
            0x8E => Some(OpCode { code: 0x8E, mnemonic: "ADC A, (HL)", length: 1, cycles: 8, argument_type: ArgumentType::Implied, extended: false }),
            0x8F => Some(OpCode { code: 0x8F, mnemonic: "ADC A, A", length: 1, cycles: 4, argument_type: ArgumentType::Implied, extended: false }),
            0x90 => Some(OpCode { code: 0x90, mnemonic: "SUB B", length: 1, cycles: 4, argument_type: ArgumentType::Implied, extended: false }),
            0x91 => Some(OpCode { code: 0x91, mnemonic: "SUB C", length: 1, cycles: 4, argument_type: ArgumentType::Implied, extended: false }),
            0x92 => Some(OpCode { code: 0x92, mnemonic: "SUB D", length: 1, cycles: 4, argument_type: ArgumentType::Implied, extended: false }),
            0x93 => Some(OpCode { code: 0x93, mnemonic: "SUB E", length: 1, cycles: 4, argument_type: ArgumentType::Implied, extended: false }),
            0x94 => Some(OpCode { code: 0x94, mnemonic: "SUB H", length: 1, cycles: 4, argument_type: ArgumentType::Implied, extended: false }),
            0x95 => Some(OpCode { code: 0x95, mnemonic: "SUB L", length: 1, cycles: 4, argument_type: ArgumentType::Implied, extended: false }),
            0x96 => Some(OpCode { code: 0x96, mnemonic: "SUB (HL)", length: 1, cycles: 8, argument_type: ArgumentType::Implied, extended: false }),
            0x97 => Some(OpCode { code: 0x97, mnemonic: "SUB A", length: 1, cycles: 4, argument_type: ArgumentType::Implied, extended: false }),
            0x98 => Some(OpCode { code: 0x98, mnemonic: "SBC A, B", length: 1, cycles: 4, argument_type: ArgumentType::Implied, extended: false }),
            0x99 => Some(OpCode { code: 0x99, mnemonic: "SBC A, C", length: 1, cycles: 4, argument_type: ArgumentType::Implied, extended: false }),
            0x9A => Some(OpCode { code: 0x9A, mnemonic: "SBC A, D", length: 1, cycles: 4, argument_type: ArgumentType::Implied, extended: false }),
            0x9B => Some(OpCode { code: 0x9B, mnemonic: "SBC A, E", length: 1, cycles: 4, argument_type: ArgumentType::Implied, extended: false }),
            0x9C => Some(OpCode { code: 0x9C, mnemonic: "SBC A, H", length: 1, cycles: 4, argument_type: ArgumentType::Implied, extended: false }),
            0x9D => Some(OpCode { code: 0x9D, mnemonic: "SBC A, L", length: 1, cycles: 4, argument_type: ArgumentType::Implied, extended: false }),
            0x9E => Some(OpCode { code: 0x9E, mnemonic: "SBC A, (HL)", length: 1, cycles: 8, argument_type: ArgumentType::Implied, extended: false }),
            0x9F => Some(OpCode { code: 0x9F, mnemonic: "SBC A, A", length: 1, cycles: 4, argument_type: ArgumentType::Implied, extended: false }),
            0xA0 => Some(OpCode { code: 0xA0, mnemonic: "AND B", length: 1, cycles: 4, argument_type: ArgumentType::Implied, extended: false }),
            0xA1 => Some(OpCode { code: 0xA1, mnemonic: "AND C", length: 1, cycles: 4, argument_type: ArgumentType::Implied, extended: false }),
            0xA2 => Some(OpCode { code: 0xA2, mnemonic: "AND D", length: 1, cycles: 4, argument_type: ArgumentType::Implied, extended: false }),
            0xA3 => Some(OpCode { code: 0xA3, mnemonic: "AND E", length: 1, cycles: 4, argument_type: ArgumentType::Implied, extended: false }),
            0xA4 => Some(OpCode { code: 0xA4, mnemonic: "AND H", length: 1, cycles: 4, argument_type: ArgumentType::Implied, extended: false }),
            0xA5 => Some(OpCode { code: 0xA5, mnemonic: "AND L", length: 1, cycles: 4, argument_type: ArgumentType::Implied, extended: false }),
            0xA6 => Some(OpCode { code: 0xA6, mnemonic: "AND (HL)", length: 1, cycles: 8, argument_type: ArgumentType::Implied, extended: false }),
            0xA7 => Some(OpCode { code: 0xA7, mnemonic: "AND A", length: 1, cycles: 4, argument_type: ArgumentType::Implied, extended: false }),
            0xA8 => Some(OpCode { code: 0xA8, mnemonic: "XOR B", length: 1, cycles: 4, argument_type: ArgumentType::Implied, extended: false }),
            0xA9 => Some(OpCode { code: 0xA9, mnemonic: "XOR C", length: 1, cycles: 4, argument_type: ArgumentType::Implied, extended: false }),
            0xAA => Some(OpCode { code: 0xAA, mnemonic: "XOR D", length: 1, cycles: 4, argument_type: ArgumentType::Implied, extended: false }),
            0xAB => Some(OpCode { code: 0xAB, mnemonic: "XOR E", length: 1, cycles: 4, argument_type: ArgumentType::Implied, extended: false }),
            0xAC => Some(OpCode { code: 0xAC, mnemonic: "XOR H", length: 1, cycles: 4, argument_type: ArgumentType::Implied, extended: false }),
            0xAD => Some(OpCode { code: 0xAD, mnemonic: "XOR L", length: 1, cycles: 4, argument_type: ArgumentType::Implied, extended: false }),
            0xAE => Some(OpCode { code: 0xAE, mnemonic: "XOR (HL)", length: 1, cycles: 8, argument_type: ArgumentType::Implied, extended: false }),
            0xAF => Some(OpCode { code: 0xAF, mnemonic: "XOR A", length: 1, cycles: 4, argument_type: ArgumentType::Implied, extended: false }),
            0xB0 => Some(OpCode { code: 0xB0, mnemonic: "OR B", length: 1, cycles: 4, argument_type: ArgumentType::Implied, extended: false }),
            0xB1 => Some(OpCode { code: 0xB1, mnemonic: "OR C", length: 1, cycles: 4, argument_type: ArgumentType::Implied, extended: false }),
            0xB2 => Some(OpCode { code: 0xB2, mnemonic: "OR D", length: 1, cycles: 4, argument_type: ArgumentType::Implied, extended: false }),
            0xB3 => Some(OpCode { code: 0xB3, mnemonic: "OR E", length: 1, cycles: 4, argument_type: ArgumentType::Implied, extended: false }),
            0xB4 => Some(OpCode { code: 0xB4, mnemonic: "OR H", length: 1, cycles: 4, argument_type: ArgumentType::Implied, extended: false }),
            0xB5 => Some(OpCode { code: 0xB5, mnemonic: "OR L", length: 1, cycles: 4, argument_type: ArgumentType::Implied, extended: false }),
            0xB6 => Some(OpCode { code: 0xB6, mnemonic: "OR (HL)", length: 1, cycles: 8, argument_type: ArgumentType::Implied, extended: false }),
            0xB7 => Some(OpCode { code: 0xB7, mnemonic: "OR A", length: 1, cycles: 4, argument_type: ArgumentType::Implied, extended: false }),
            0xB8 => Some(OpCode { code: 0xB8, mnemonic: "CP B", length: 1, cycles: 4, argument_type: ArgumentType::Implied, extended: false }),
            0xB9 => Some(OpCode { code: 0xB9, mnemonic: "CP C", length: 1, cycles: 4, argument_type: ArgumentType::Implied, extended: false }),
            0xBA => Some(OpCode { code: 0xBA, mnemonic: "CP D", length: 1, cycles: 4, argument_type: ArgumentType::Implied, extended: false }),
            0xBB => Some(OpCode { code: 0xBB, mnemonic: "CP E", length: 1, cycles: 4, argument_type: ArgumentType::Implied, extended: false }),
            0xBC => Some(OpCode { code: 0xBC, mnemonic: "CP H", length: 1, cycles: 4, argument_type: ArgumentType::Implied, extended: false }),
            0xBD => Some(OpCode { code: 0xBD, mnemonic: "CP L", length: 1, cycles: 4, argument_type: ArgumentType::Implied, extended: false }),
            0xBE => Some(OpCode { code: 0xBE, mnemonic: "CP (HL)", length: 1, cycles: 8, argument_type: ArgumentType::Implied, extended: false }),
            0xBF => Some(OpCode { code: 0xBF, mnemonic: "CP A", length: 1, cycles: 4, argument_type: ArgumentType::Implied, extended: false }),
            0xC0 => Some(OpCode { code: 0xC0, mnemonic: "RET NZ", length: 1, cycles: 8, argument_type: ArgumentType::Implied, extended: false }),
            0xC1 => Some(OpCode { code: 0xC1, mnemonic: "POP BC", length: 1, cycles: 12, argument_type: ArgumentType::Implied, extended: false }),
            0xC2 => Some(OpCode { code: 0xC2, mnemonic: "JP NZ, {imm16}", length: 3, cycles: 12, argument_type: ArgumentType::Imm16, extended: false }),
            0xC3 => Some(OpCode { code: 0xC3, mnemonic: "JP {imm16}", length: 3, cycles: 12, argument_type: ArgumentType::Imm16, extended: false }),
            0xC4 => Some(OpCode { code: 0xC4, mnemonic: "CALL NZ, {imm16}", length: 3, cycles: 12, argument_type: ArgumentType::Imm16, extended: false }),
            0xC5 => Some(OpCode { code: 0xC5, mnemonic: "PUSH BC", length: 1, cycles: 16, argument_type: ArgumentType::Implied, extended: false }),
            0xC6 => Some(OpCode { code: 0xC6, mnemonic: "ADD A, {imm8}", length: 2, cycles: 8, argument_type: ArgumentType::Imm8, extended: false }),
            0xC7 => Some(OpCode { code: 0xC7, mnemonic: "RST $00", length: 1, cycles: 16, argument_type: ArgumentType::Implied, extended: false }),
            0xC8 => Some(OpCode { code: 0xC8, mnemonic: "RET Z", length: 1, cycles: 8, argument_type: ArgumentType::Implied, extended: false }),
            0xC9 => Some(OpCode { code: 0xC9, mnemonic: "RET", length: 1, cycles: 16, argument_type: ArgumentType::Implied, extended: false }),
            0xCA => Some(OpCode { code: 0xCA, mnemonic: "JP Z, {imm16}", length: 3, cycles: 12, argument_type: ArgumentType::Imm16, extended: false }),
            0xCB => Some(OpCode { code: 0xCB, mnemonic: "PREFIX CB", length: 1, cycles: 4, argument_type: ArgumentType::Implied, extended: false }),
            0xCC => Some(OpCode { code: 0xCC, mnemonic: "CALL Z, {imm16}", length: 3, cycles: 12, argument_type: ArgumentType::Imm16, extended: false }),
            0xCD => Some(OpCode { code: 0xCD, mnemonic: "CALL {imm16}", length: 3, cycles: 24, argument_type: ArgumentType::Imm16, extended: false }),
            0xCE => Some(OpCode { code: 0xCE, mnemonic: "ADC A, {imm8}", length: 2, cycles: 8, argument_type: ArgumentType::Imm8, extended: false }),
            0xCF => Some(OpCode { code: 0xCF, mnemonic: "RST $08", length: 1, cycles: 16, argument_type: ArgumentType::Implied, extended: false }),
            0xD0 => Some(OpCode { code: 0xD0, mnemonic: "RET NC", length: 1, cycles: 8, argument_type: ArgumentType::Implied, extended: false }),
            0xD1 => Some(OpCode { code: 0xD1, mnemonic: "POP DE", length: 1, cycles: 12, argument_type: ArgumentType::Implied, extended: false }),
            0xD2 => Some(OpCode { code: 0xD2, mnemonic: "JP NC, {imm16}", length: 3, cycles: 12, argument_type: ArgumentType::Imm16, extended: false }),
            0xD4 => Some(OpCode { code: 0xD4, mnemonic: "CALL NC, {imm16}", length: 3, cycles: 12, argument_type: ArgumentType::Imm16, extended: false }),
            0xD5 => Some(OpCode { code: 0xD5, mnemonic: "PUSH DE", length: 1, cycles: 16, argument_type: ArgumentType::Implied, extended: false }),
            0xD6 => Some(OpCode { code: 0xD6, mnemonic: "SUB {imm8}", length: 2, cycles: 8, argument_type: ArgumentType::Imm8, extended: false }),
            0xD7 => Some(OpCode { code: 0xD7, mnemonic: "RST $10", length: 1, cycles: 16, argument_type: ArgumentType::Implied, extended: false }),
            0xD8 => Some(OpCode { code: 0xD8, mnemonic: "RET C", length: 1, cycles: 8, argument_type: ArgumentType::Implied, extended: false }),
            0xD9 => Some(OpCode { code: 0xD9, mnemonic: "RETI", length: 1, cycles: 16, argument_type: ArgumentType::Implied, extended: false }),
            0xDA => Some(OpCode { code: 0xDA, mnemonic: "JP C, {imm16}", length: 3, cycles: 12, argument_type: ArgumentType::Imm16, extended: false }),
            0xDC => Some(OpCode { code: 0xDC, mnemonic: "CALL C, {imm16}", length: 3, cycles: 12, argument_type: ArgumentType::Imm16, extended: false }),
            0xDE => Some(OpCode { code: 0xDE, mnemonic: "SBC A, {imm8}", length: 2, cycles: 8, argument_type: ArgumentType::Imm8, extended: false }),
            0xDF => Some(OpCode { code: 0xDF, mnemonic: "RST $18", length: 1, cycles: 16, argument_type: ArgumentType::Implied, extended: false }),
            0xE0 => Some(OpCode { code: 0xE0, mnemonic: "LD ($FF00+{imm8}), A", length: 2, cycles: 12, argument_type: ArgumentType::Imm8, extended: false }),
            0xE1 => Some(OpCode { code: 0xE1, mnemonic: "POP HL", length: 1, cycles: 12, argument_type: ArgumentType::Implied, extended: false }),
            0xE2 => Some(OpCode { code: 0xE2, mnemonic: "LD ($FF00+C), A", length: 1, cycles: 8, argument_type: ArgumentType::Implied, extended: false }),
            0xE5 => Some(OpCode { code: 0xE5, mnemonic: "PUSH HL", length: 1, cycles: 16, argument_type: ArgumentType::Implied, extended: false }),
            0xE6 => Some(OpCode { code: 0xE6, mnemonic: "AND {imm8}", length: 2, cycles: 8, argument_type: ArgumentType::Imm8, extended: false }),
            0xE7 => Some(OpCode { code: 0xE7, mnemonic: "RST $20", length: 1, cycles: 16, argument_type: ArgumentType::Implied, extended: false }),
            0xE8 => Some(OpCode { code: 0xE8, mnemonic: "ADD SP, {imm8}", length: 2, cycles: 16, argument_type: ArgumentType::Imm8, extended: false }),
            0xE9 => Some(OpCode { code: 0xE9, mnemonic: "JP (HL)", length: 1, cycles: 4, argument_type: ArgumentType::Implied, extended: false }),
            0xEA => Some(OpCode { code: 0xEA, mnemonic: "LD ({imm16}), A", length: 3, cycles: 16, argument_type: ArgumentType::Imm16, extended: false }),
            0xEE => Some(OpCode { code: 0xEE, mnemonic: "XOR {imm8}", length: 2, cycles: 8, argument_type: ArgumentType::Imm8, extended: false }),
            0xEF => Some(OpCode { code: 0xEF, mnemonic: "RST $28", length: 1, cycles: 16, argument_type: ArgumentType::Implied, extended: false }),
            0xF0 => Some(OpCode { code: 0xF0, mnemonic: "LD A, ($FF00+{imm8})", length: 2, cycles: 12, argument_type: ArgumentType::Imm8, extended: false }),
            0xF1 => Some(OpCode { code: 0xF1, mnemonic: "POP AF", length: 1, cycles: 12, argument_type: ArgumentType::Implied, extended: false }),
            0xF2 => Some(OpCode { code: 0xF2, mnemonic: "LD A, ($FF00+C)", length: 1, cycles: 8, argument_type: ArgumentType::Implied, extended: false }),
            0xF3 => Some(OpCode { code: 0xF3, mnemonic: "DI", length: 1, cycles: 4, argument_type: ArgumentType::Implied, extended: false }),
            0xF5 => Some(OpCode { code: 0xF5, mnemonic: "PUSH AF", length: 1, cycles: 16, argument_type: ArgumentType::Implied, extended: false }),
            0xF6 => Some(OpCode { code: 0xF6, mnemonic: "OR {imm8}", length: 2, cycles: 8, argument_type: ArgumentType::Imm8, extended: false }),
            0xF7 => Some(OpCode { code: 0xF7, mnemonic: "RST $30", length: 1, cycles: 16, argument_type: ArgumentType::Implied, extended: false }),
            0xF8 => Some(OpCode { code: 0xF8, mnemonic: "LD HL, SP+{imm8}", length: 2, cycles: 12, argument_type: ArgumentType::Imm8, extended: false }),
            0xF9 => Some(OpCode { code: 0xF9, mnemonic: "LD SP, HL", length: 1, cycles: 8, argument_type: ArgumentType::Implied, extended: false }),
            0xFA => Some(OpCode { code: 0xFA, mnemonic: "LD A, ({imm16})", length: 3, cycles: 16, argument_type: ArgumentType::Imm16, extended: false }),
            0xFB => Some(OpCode { code: 0xFB, mnemonic: "EI", length: 1, cycles: 4, argument_type: ArgumentType::Implied, extended: false }),
            0xFE => Some(OpCode { code: 0xFE, mnemonic: "CP {imm8}", length: 2, cycles: 8, argument_type: ArgumentType::Imm8, extended: false }),
            0xFF => Some(OpCode { code: 0xFF, mnemonic: "RST $38", length: 1, cycles: 16, argument_type: ArgumentType::Implied, extended: false }),
            _ => None,
        }
    }

    fn from_cb_byte(byte: u8) -> (r: OpCode)
        ensures
            r == spec_cb_opcode(byte),
            r.code == byte && r.extended,
    {
        match byte {
            0x00 => OpCode { code: 0x00, mnemonic: "RLC B", length: 1, cycles: 8, argument_type: ArgumentType::Implied, extended: true },
            0x01 => OpCode { code: 0x01, mnemonic: "RLC C", length: 1, cycles: 8, argument_type: ArgumentType::Implied, extended: true },
            0x02 => OpCode { code: 0x02, mnemonic: "RLC D", length: 1, cycles: 8, argument_type: ArgumentType::Implied, extended: true },
            0x03 => OpCode { code: 0x03, mnemonic: "RLC E", length: 1, cycles: 8, argument_type: ArgumentType::Implied, extended: true },
            0x04 => OpCode { code: 0x04, mnemonic: "RLC H", length: 1, cycles: 8, argument_type: ArgumentType::Implied, extended: true },
            0x05 => OpCode { code: 0x05, mnemonic: "RLC L", length: 1, cycles: 8, argument_type: ArgumentType::Implied, extended: true },
            0x06 => OpCode { code: 0x06, mnemonic: "RLC (HL)", length: 1, cycles: 16, argument_type: ArgumentType::Implied, extended: true },
            0x07 => OpCode { code: 0x07, mnemonic: "RLC A", length: 1, cycles: 8, argument_type: ArgumentType::Implied, extended: true },
            0x08 => OpCode { code: 0x08, mnemonic: "RRC B", length: 1, cycles: 8, argument_type: ArgumentType::Implied, extended: true },
            0x09 => OpCode { code: 0x09, mnemonic: "RRC C", length: 1, cycles: 8, argument_type: ArgumentType::Implied, extended: true },
            0x0A => OpCode { code: 0x0A, mnemonic: "RRC D", length: 1, cycles: 8, argument_type: ArgumentType::Implied, extended: true },
            0x0B => OpCode { code: 0x0B, mnemonic: "RRC E", length: 1, cycles: 8, argument_type: ArgumentType::Implied, extended: true },
            0x0C => OpCode { code: 0x0C, mnemonic: "RRC H", length: 1, cycles: 8, argument_type: ArgumentType::Implied, extended: true },
            0x0D => OpCode { code: 0x0D, mnemonic: "RRC L", length: 1, cycles: 8, argument_type: ArgumentType::Implied, extended: true },
            0x0E => OpCode { code: 0x0E, mnemonic: "RRC (HL)", length: 1, cycles: 16, argument_type: ArgumentType::Implied, extended: true },
            0x0F => OpCode { code: 0x0F, mnemonic: "RRC A", length: 1, cycles: 8, argument_type: ArgumentType::Implied, extended: true },
            0x10 => OpCode { code: 0x10, mnemonic: "RL B", length: 1, cycles: 8, argument_type: ArgumentType::Implied, extended: true },
            0x11 => OpCode { code: 0x11, mnemonic: "RL C", length: 1, cycles: 8, argument_type: ArgumentType::Implied, extended: true },
            0x12 => OpCode { code: 0x12, mnemonic: "RL D", length: 1, cycles: 8, argument_type: ArgumentType::Implied, extended: true },
            0x13 => OpCode { code: 0x13, mnemonic: "RL E", length: 1, cycles: 8, argument_type: ArgumentType::Implied, extended: true },
            0x14 => OpCode { code: 0x14, mnemonic: "RL H", length: 1, cycles: 8, argument_type: ArgumentType::Implied, extended: true },
            0x15 => OpCode { code: 0x15, mnemonic: "RL L", length: 1, cycles: 8, argument_type: ArgumentType::Implied, extended: true },
            0x16 => OpCode { code: 0x16, mnemonic: "RL (HL)", length: 1, cycles: 16, argument_type: ArgumentType::Implied, extended: true },
            0x17 => OpCode { code: 0x17, mnemonic: "RL A", length: 1, cycles: 8, argument_type: ArgumentType::Implied, extended: true },
            0x18 => OpCode { code: 0x18, mnemonic: "RR B", length: 1, cycles: 8, argument_type: ArgumentType::Implied, extended: true },
            0x19 => OpCode { code: 0x19, mnemonic: "RR C", length: 1, cycles: 8, argument_type: ArgumentType::Implied, extended: true },
            0x1A => OpCode { code: 0x1A, mnemonic: "RR D", length: 1, cycles: 8, argument_type: ArgumentType::Implied, extended: true },
            0x1B => OpCode { code: 0x1B, mnemonic: "RR E", length: 1, cycles: 8, argument_type: ArgumentType::Implied, extended: true },
            0x1C => OpCode { code: 0x1C, mnemonic: "RR H", length: 1, cycles: 8, argument_type: ArgumentType::Implied, extended: true },
            0x1D => OpCode { code: 0x1D, mnemonic: "RR L", length: 1, cycles: 8, argument_type: ArgumentType::Implied, extended: true },
            0x1E => OpCode { code: 0x1E, mnemonic: "RR (HL)", length: 1, cycles: 16, argument_type: ArgumentType::Implied, extended: true },
            0x1F => OpCode { code: 0x1F, mnemonic: "RR A", length: 1, cycles: 8, argument_type: ArgumentType::Implied, extended: true },
            0x20 => OpCode { code: 0x20, mnemonic: "SLA B", length: 1, cycles: 8, argument_type: ArgumentType::Implied, extended: true },
            0x21 => OpCode { code: 0x21, mnemonic: "SLA C", length: 1, cycles: 8, argument_type: ArgumentType::Implied, extended: true },
            0x22 => OpCode { code: 0x22, mnemonic: "SLA D", length: 1, cycles: 8, argument_type: ArgumentType::Implied, extended: true },
            0x23 => OpCode { code: 0x23, mnemonic: "SLA E", length: 1, cycles: 8, argument_type: ArgumentType::Implied, extended: true },
            0x24 => OpCode { code: 0x24, mnemonic: "SLA H", length: 1, cycles: 8, argument_type: ArgumentType::Implied, extended: true },
            0x25 => OpCode { code: 0x25, mnemonic: "SLA L", length: 1, cycles: 8, argument_type: ArgumentType::Implied, extended: true },
            0x26 => OpCode { code: 0x26, mnemonic: "SLA (HL)", length: 1, cycles: 16, argument_type: ArgumentType::Implied, extended: true },
            0x27 => OpCode { code: 0x27, mnemonic: "SLA A", length: 1, cycles: 8, argument_type: ArgumentType::Implied, extended: true },
            0x28 => OpCode { code: 0x28, mnemonic: "SRA B", length: 1, cycles: 8, argument_type: ArgumentType::Implied, extended: true },
            0x29 => OpCode { code: 0x29, mnemonic: "SRA C", length: 1, cycles: 8, argument_type: ArgumentType::Implied, extended: true },
            0x2A => OpCode { code: 0x2A, mnemonic: "SRA D", length: 1, cycles: 8, argument_type: ArgumentType::Implied, extended: true },
            0x2B => OpCode { code: 0x2B, mnemonic: "SRA E", length: 1, cycles: 8, argument_type: ArgumentType::Implied, extended: true },
            0x2C => OpCode { code: 0x2C, mnemonic: "SRA H", length: 1, cycles: 8, argument_type: ArgumentType::Implied, extended: true },
            0x2D => OpCode { code: 0x2D, mnemonic: "SRA L", length: 1, cycles: 8, argument_type: ArgumentType::Implied, extended: true },
            0x2E => OpCode { code: 0x2E, mnemonic: "SRA (HL)", length: 1, cycles: 16, argument_type: ArgumentType::Implied, extended: true },
            0x2F => OpCode { code: 0x2F, mnemonic: "SRA A", length: 1, cycles: 8, argument_type: ArgumentType::Implied, extended: true },
            0x30 => OpCode { code: 0x30, mnemonic: "SWAP B", length: 1, cycles: 8, argument_type: ArgumentType::Implied, extended: true },
            0x31 => OpCode { code: 0x31, mnemonic: "SWAP C", length: 1, cycles: 8, argument_type: ArgumentType::Implied, extended: true },
            0x32 => OpCode { code: 0x32, mnemonic: "SWAP D", length: 1, cycles: 8, argument_type: ArgumentType::Implied, extended: true },
            0x33 => OpCode { code: 0x33, mnemonic: "SWAP E", length: 1, cycles: 8, argument_type: ArgumentType::Implied, extended: true },
            0x34 => OpCode { code: 0x34, mnemonic: "SWAP H", length: 1, cycles: 8, argument_type: ArgumentType::Implied, extended: true },
            0x35 => OpCode { code: 0x35, mnemonic: "SWAP L", length: 1, cycles: 8, argument_type: ArgumentType::Implied, extended: true },
            0x36 => OpCode { code: 0x36, mnemonic: "SWAP (HL)", length: 1, cycles: 16, argument_type: ArgumentType::Implied, extended: true },
            0x37 => OpCode { code: 0x37, mnemonic: "SWAP A", length: 1, cycles: 8, argument_type: ArgumentType::Implied, extended: true },
            0x38 => OpCode { code: 0x38, mnemonic: "SRL B", length: 1, cycles: 8, argument_type: ArgumentType::Implied, extended: true },
            0x39 => OpCode { code: 0x39, mnemonic: "SRL C", length: 1, cycles: 8, argument_type: ArgumentType::Implied, extended: true },
            0x3A => OpCode { code: 0x3A, mnemonic: "SRL D", length: 1, cycles: 8, argument_type: ArgumentType::Implied, extended: true },
            0x3B => OpCode { code: 0x3B, mnemonic: "SRL E", length: 1, cycles: 8, argument_type: ArgumentType::Implied, extended: true },
            0x3C => OpCode { code: 0x3C, mnemonic: "SRL H", length: 1, cycles: 8, argument_type: ArgumentType::Implied, extended: true },
            0x3D => OpCode { code: 0x3D, mnemonic: "SRL L", length: 1, cycles: 8, argument_type: ArgumentType::Implied, extended: true },
            0x3E => OpCode { code: 0x3E, mnemonic: "SRL (HL)", length: 1, cycles: 16, argument_type: ArgumentType::Implied, extended: true },
            0x3F => OpCode { code: 0x3F, mnemonic: "SRL A", length: 1, cycles: 8, argument_type: ArgumentType::Implied, extended: true },
            0x40 => OpCode { code: 0x40, mnemonic: "BIT 0, B", length: 1, cycles: 8, argument_type: ArgumentType::Implied, extended: true },
            0x41 => OpCode { code: 0x41, mnemonic: "BIT 0, C", length: 1, cycles: 8, argument_type: ArgumentType::Implied, extended: true },
            0x42 => OpCode { code: 0x42, mnemonic: "BIT 0, D", length: 1, cycles: 8, argument_type: ArgumentType::Implied, extended: true },
            0x43 => OpCode { code: 0x43, mnemonic: "BIT 0, E", length: 1, cycles: 8, argument_type: ArgumentType::Implied, extended: true },
            0x44 => OpCode { code: 0x44, mnemonic: "BIT 0, H", length: 1, cycles: 8, argument_type: ArgumentType::Implied, extended: true },
            0x45 => OpCode { code: 0x45, mnemonic: "BIT 0, L", length: 1, cycles: 8, argument_type: ArgumentType::Implied, extended: true },
            0x46 => OpCode { code: 0x46, mnemonic: "BIT 0, (HL)", length: 1, cycles: 12, argument_type: ArgumentType::Implied, extended: true },
            0x47 => OpCode { code: 0x47, mnemonic: "BIT 0, A", length: 1, cycles: 8, argument_type: ArgumentType::Implied, extended: true },
            0x48 => OpCode { code: 0x48, mnemonic: "BIT 1, B", length: 1, cycles: 8, argument_type: ArgumentType::Implied, extended: true },
            0x49 => OpCode { code: 0x49, mnemonic: "BIT 1, C", length: 1, cycles: 8, argument_type: ArgumentType::Implied, extended: true },
            0x4A => OpCode { code: 0x4A, mnemonic: "BIT 1, D", length: 1, cycles: 8, argument_type: ArgumentType::Implied, extended: true },
            0x4B => OpCode { code: 0x4B, mnemonic: "BIT 1, E", length: 1, cycles: 8, argument_type: ArgumentType::Implied, extended: true },
            0x4C => OpCode { code: 0x4C, mnemonic: "BIT 1, H", length: 1, cycles: 8, argument_type: ArgumentType::Implied, extended: true },
            0x4D => OpCode { code: 0x4D, mnemonic: "BIT 1, L", length: 1, cycles: 8, argument_type: ArgumentType::Implied, extended: true },
            0x4E => OpCode { code: 0x4E, mnemonic: "BIT 1, (HL)", length: 1, cycles: 12, argument_type: ArgumentType::Implied, extended: true },
            0x4F => OpCode { code: 0x4F, mnemonic: "BIT 1, A", length: 1, cycles: 8, argument_type: ArgumentType::Implied, extended: true },
            0x50 => OpCode { code: 0x50, mnemonic: "BIT 2, B", length: 1, cycles: 8, argument_type: ArgumentType::Implied, extended: true },
            0x51 => OpCode { code: 0x51, mnemonic: "BIT 2, C", length: 1, cycles: 8, argument_type: ArgumentType::Implied, extended: true },
            0x52 => OpCode { code: 0x52, mnemonic: "BIT 2, D", length: 1, cycles: 8, argument_type: ArgumentType::Implied, extended: true },
            0x53 => OpCode { code: 0x53, mnemonic: "BIT 2, E", length: 1, cycles: 8, argument_type: ArgumentType::Implied, extended: true },
            0x54 => OpCode { code: 0x54, mnemonic: "BIT 2, H", length: 1, cycles: 8, argument_type: ArgumentType::Implied, extended: true },
            0x55 => OpCode { code: 0x55, mnemonic: "BIT 2, L", length: 1, cycles: 8, argument_type: ArgumentType::Implied, extended: true },
            0x56 => OpCode { code: 0x56, mnemonic: "BIT 2, (HL)", length: 1, cycles: 12, argument_type: ArgumentType::Implied, extended: true },
            0x57 => OpCode { code: 0x57, mnemonic: "BIT 2, A", length: 1, cycles: 8, argument_type: ArgumentType::Implied, extended: true },
            0x58 => OpCode { code: 0x58, mnemonic: "BIT 3, B", length: 1, cycles: 8, argument_type: ArgumentType::Implied, extended: true },
            0x59 => OpCode { code: 0x59, mnemonic: "BIT 3, C", length: 1, cycles: 8, argument_type: ArgumentType::Implied, extended: true },
            0x5A => OpCode { code: 0x5A, mnemonic: "BIT 3, D", length: 1, cycles: 8, argument_type: ArgumentType::Implied, extended: true },
            0x5B => OpCode { code: 0x5B, mnemonic: "BIT 3, E", length: 1, cycles: 8, argument_type: ArgumentType::Implied, extended: true },
            0x5C => OpCode { code: 0x5C, mnemonic: "BIT 3, H", length: 1, cycles: 8, argument_type: ArgumentType::Implied, extended: true },
            0x5D => OpCode { code: 0x5D, mnemonic: "BIT 3, L", length: 1, cycles: 8, argument_type: ArgumentType::Implied, extended: true },
            0x5E => OpCode { code: 0x5E, mnemonic: "BIT 3, (HL)", length: 1, cycles: 12, argument_type: ArgumentType::Implied, extended: true },
            0x5F => OpCode { code: 0x5F, mnemonic: "BIT 3, A", length: 1, cycles: 8, argument_type: ArgumentType::Implied, extended: true },
            0x60 => OpCode { code: 0x60, mnemonic: "BIT 4, B", length: 1, cycles: 8, argument_type: ArgumentType::Implied, extended: true },
            0x61 => OpCode { code: 0x61, mnemonic: "BIT 4, C", length: 1, cycles: 8, argument_type: ArgumentType::Implied, extended: true },
            0x62 => OpCode { code: 0x62, mnemonic: "BIT 4, D", length: 1, cycles: 8, argument_type: ArgumentType::Implied, extended: true },
            0x63 => OpCode { code: 0x63, mnemonic: "BIT 4, E", length: 1, cycles: 8, argument_type: ArgumentType::Implied, extended: true },
            0x64 => OpCode { code: 0x64, mnemonic: "BIT 4, H", length: 1, cycles: 8, argument_type: ArgumentType::Implied, extended: true },
            0x65 => OpCode { code: 0x65, mnemonic: "BIT 4, L", length: 1, cycles: 8, argument_type: ArgumentType::Implied, extended: true },
            0x66 => OpCode { code: 0x66, mnemonic: "BIT 4, (HL)", length: 1, cycles: 12, argument_type: ArgumentType::Implied, extended: true },
            0x67 => OpCode { code: 0x67, mnemonic: "BIT 4, A", length: 1, cycles: 8, argument_type: ArgumentType::Implied, extended: true },
            0x68 => OpCode { code: 0x68, mnemonic: "BIT 5, B", length: 1, cycles: 8, argument_type: ArgumentType::Implied, extended: true },
            0x69 => OpCode { code: 0x69, mnemonic: "BIT 5, C", length: 1, cycles: 8, argument_type: ArgumentType::Implied, extended: true },
            0x6A => OpCode { code: 0x6A, mnemonic: "BIT 5, D", length: 1, cycles: 8, argument_type: ArgumentType::Implied, extended: true },
            0x6B => OpCode { code: 0x6B, mnemonic: "BIT 5, E", length: 1, cycles: 8, argument_type: ArgumentType::Implied, extended: true },
            0x6C => OpCode { code: 0x6C, mnemonic: "BIT 5, H", length: 1, cycles: 8, argument_type: ArgumentType::Implied, extended: true },
            0x6D => OpCode { code: 0x6D, mnemonic: "BIT 5, L", length: 1, cycles: 8, argument_type: ArgumentType::Implied, extended: true },
            0x6E => OpCode { code: 0x6E, mnemonic: "BIT 5, (HL)", length: 1, cycles: 12, argument_type: ArgumentType::Implied, extended: true },
            0x6F => OpCode { code: 0x6F, mnemonic: "BIT 5, A", length: 1, cycles: 8, argument_type: ArgumentType::Implied, extended: true },
            0x70 => OpCode { code: 0x70, mnemonic: "BIT 6, B", length: 1, cycles: 8, argument_type: ArgumentType::Implied, extended: true },
            0x71 => OpCode { code: 0x71, mnemonic: "BIT 6, C", length: 1, cycles: 8, argument_type: ArgumentType::Implied, extended: true },
            0x72 => OpCode { code: 0x72, mnemonic: "BIT 6, D", length: 1, cycles: 8, argument_type: ArgumentType::Implied, extended: true },
            0x73 => OpCode { code: 0x73, mnemonic: "BIT 6, E", length: 1, cycles: 8, argument_type: ArgumentType::Implied, extended: true },
            0x74 => OpCode { code: 0x74, mnemonic: "BIT 6, H", length: 1, cycles: 8, argument_type: ArgumentType::Implied, extended: true },
            0x75 => OpCode { code: 0x75, mnemonic: "BIT 6, L", length: 1, cycles: 8, argument_type: ArgumentType::Implied, extended: true },
            0x76 => OpCode { code: 0x76, mnemonic: "BIT 6, (HL)", length: 1, cycles: 12, argument_type: ArgumentType::Implied, extended: true },
            0x77 => OpCode { code: 0x77, mnemonic: "BIT 6, A", length: 1, cycles: 8, argument_type: ArgumentType::Implied, extended: true },
            0x78 => OpCode { code: 0x78, mnemonic: "BIT 7, B", length: 1, cycles: 8, argument_type: ArgumentType::Implied, extended: true },
            0x79 => OpCode { code: 0x79, mnemonic: "BIT 7, C", length: 1, cycles: 8, argument_type: ArgumentType::Implied, extended: true },
            0x7A => OpCode { code: 0x7A, mnemonic: "BIT 7, D", length: 1, cycles: 8, argument_type: ArgumentType::Implied, extended: true },
            0x7B => OpCode { code: 0x7B, mnemonic: "BIT 7, E", length: 1, cycles: 8, argument_type: ArgumentType::Implied, extended: true },
            0x7C => OpCode { code: 0x7C, mnemonic: "BIT 7, H", length: 1, cycles: 8, argument_type: ArgumentType::Implied, extended: true },
            0x7D => OpCode { code: 0x7D, mnemonic: "BIT 7, L", length: 1, cycles: 8, argument_type: ArgumentType::Implied, extended: true },
            0x7E => OpCode { code: 0x7E, mnemonic: "BIT 7, (HL)", length: 1, cycles: 12, argument_type: ArgumentType::Implied, extended: true },
            0x7F => OpCode { code: 0x7F, mnemonic: "BIT 7, A", length: 1, cycles: 8, argument_type: ArgumentType::Implied, extended: true },
            0x80 => OpCode { code: 0x80, mnemonic: "RES 0, B", length: 1, cycles: 8, argument_type: ArgumentType::Implied, extended: true },
            0x81 => OpCode { code: 0x81, mnemonic: "RES 0, C", length: 1, cycles: 8, argument_type: ArgumentType::Implied, extended: true },
            0x82 => OpCode { code: 0x82, mnemonic: "RES 0, D", length: 1, cycles: 8, argument_type: ArgumentType::Implied, extended: true },
            0x83 => OpCode { code: 0x83, mnemonic: "RES 0, E", length: 1, cycles: 8, argument_type: ArgumentType::Implied, extended: true },
            0x84 => OpCode { code: 0x84, mnemonic: "RES 0, H", length: 1, cycles: 8, argument_type: ArgumentType::Implied, extended: true },
            0x85 => OpCode { code: 0x85, mnemonic: "RES 0, L", length: 1, cycles: 8, argument_type: ArgumentType::Implied, extended: true },
            0x86 => OpCode { code: 0x86, mnemonic: "RES 0, (HL)", length: 1, cycles: 16, argument_type: ArgumentType::Implied, extended: true },
            0x87 => OpCode { code: 0x87, mnemonic: "RES 0, A", length: 1, cycles: 8, argument_type: ArgumentType::Implied, extended: true },
            0x88 => OpCode { code: 0x88, mnemonic: "RES 1, B", length: 1, cycles: 8, argument_type: ArgumentType::Implied, extended: true },
            0x89 => OpCode { code: 0x89, mnemonic: "RES 1, C", length: 1, cycles: 8, argument_type: ArgumentType::Implied, extended: true },
            0x8A => OpCode { code: 0x8A, mnemonic: "RES 1, D", length: 1, cycles: 8, argument_type: ArgumentType::Implied, extended: true },
            0x8B => OpCode { code: 0x8B, mnemonic: "RES 1, E", length: 1, cycles: 8, argument_type: ArgumentType::Implied, extended: true },
            0x8C => OpCode { code: 0x8C, mnemonic: "RES 1, H", length: 1, cycles: 8, argument_type: ArgumentType::Implied, extended: true },
            0x8D => OpCode { code: 0x8D, mnemonic: "RES 1, L", length: 1, cycles: 8, argument_type: ArgumentType::Implied, extended: true },
            0x8E => OpCode { code: 0x8E, mnemonic: "RES 1, (HL)", length: 1, cycles: 16, argument_type: ArgumentType::Implied, extended: true },
            0x8F => OpCode { code: 0x8F, mnemonic: "RES 1, A", length: 1, cycles: 8, argument_type: ArgumentType::Implied, extended: true },
            0x90 => OpCode { code: 0x90, mnemonic: "RES 2, B", length: 1, cycles: 8, argument_type: ArgumentType::Implied, extended: true },
            0x91 => OpCode { code: 0x91, mnemonic: "RES 2, C", length: 1, cycles: 8, argument_type: ArgumentType::Implied, extended: true },
            0x92 => OpCode { code: 0x92, mnemonic: "RES 2, D", length: 1, cycles: 8, argument_type: ArgumentType::Implied, extended: true },
            0x93 => OpCode { code: 0x93, mnemonic: "RES 2, E", length: 1, cycles: 8, argument_type: ArgumentType::Implied, extended: true },
            0x94 => OpCode { code: 0x94, mnemonic: "RES 2, H", length: 1, cycles: 8, argument_type: ArgumentType::Implied, extended: true },
            0x95 => OpCode { code: 0x95, mnemonic: "RES 2, L", length: 1, cycles: 8, argument_type: ArgumentType::Implied, extended: true },
            0x96 => OpCode { code: 0x96, mnemonic: "RES 2, (HL)", length: 1, cycles: 16, argument_type: ArgumentType::Implied, extended: true },
            0x97 => OpCode { code: 0x97, mnemonic: "RES 2, A", length: 1, cycles: 8, argument_type: ArgumentType::Implied, extended: true },
            0x98 => OpCode { code: 0x98, mnemonic: "RES 3, B", length: 1, cycles: 8, argument_type: ArgumentType::Implied, extended: true },
            0x99 => OpCode { code: 0x99, mnemonic: "RES 3, C", length: 1, cycles: 8, argument_type: ArgumentType::Implied, extended: true },
            0x9A => OpCode { code: 0x9A, mnemonic: "RES 3, D", length: 1, cycles: 8, argument_type: ArgumentType::Implied, extended: true },
            0x9B => OpCode { code: 0x9B, mnemonic: "RES 3, E", length: 1, cycles: 8, argument_type: ArgumentType::Implied, extended: true },
            0x9C => OpCode { code: 0x9C, mnemonic: "RES 3, H", length: 1, cycles: 8, argument_type: ArgumentType::Implied, extended: true },
            0x9D => OpCode { code: 0x9D, mnemonic: "RES 3, L", length: 1, cycles: 8, argument_type: ArgumentType::Implied, extended: true },
            0x9E => OpCode { code: 0x9E, mnemonic: "RES 3, (HL)", length: 1, cycles: 16, argument_type: ArgumentType::Implied, extended: true },
            0x9F => OpCode { code: 0x9F, mnemonic: "RES 3, A", length: 1, cycles: 8, argument_type: ArgumentType::Implied, extended: true },
            0xA0 => OpCode { code: 0xA0, mnemonic: "RES 4, B", length: 1, cycles: 8, argument_type: ArgumentType::Implied, extended: true },
            0xA1 => OpCode { code: 0xA1, mnemonic: "RES 4, C", length: 1, cycles: 8, argument_type: ArgumentType::Implied, extended: true },
            0xA2 => OpCode { code: 0xA2, mnemonic: "RES 4, D", length: 1, cycles: 8, argument_type: ArgumentType::Implied, extended: true },
            0xA3 => OpCode { code: 0xA3, mnemonic: "RES 4, E", length: 1, cycles: 8, argument_type: ArgumentType::Implied, extended: true },
            0xA4 => OpCode { code: 0xA4, mnemonic: "RES 4, H", length: 1, cycles: 8, argument_type: ArgumentType::Implied, extended: true },
            0xA5 => OpCode { code: 0xA5, mnemonic: "RES 4, L", length: 1, cycles: 8, argument_type: ArgumentType::Implied, extended: true },
            0xA6 => OpCode { code: 0xA6, mnemonic: "RES 4, (HL)", length: 1, cycles: 16, argument_type: ArgumentType::Implied, extended: true },
            0xA7 => OpCode { code: 0xA7, mnemonic: "RES 4, A", length: 1, cycles: 8, argument_type: ArgumentType::Implied, extended: true },
            0xA8 => OpCode { code: 0xA8, mnemonic: "RES 5, B", length: 1, cycles: 8, argument_type: ArgumentType::Implied, extended: true },
            0xA9 => OpCode { code: 0xA9, mnemonic: "RES 5, C", length: 1, cycles: 8, argument_type: ArgumentType::Implied, extended: true },
            0xAA => OpCode { code: 0xAA, mnemonic: "RES 5, D", length: 1, cycles: 8, argument_type: ArgumentType::Implied, extended: true },
            0xAB => OpCode { code: 0xAB, mnemonic: "RES 5, E", length: 1, cycles: 8, argument_type: ArgumentType::Implied, extended: true },
            0xAC => OpCode { code: 0xAC, mnemonic: "RES 5, H", length: 1, cycles: 8, argument_type: ArgumentType::Implied, extended: true },
            0xAD => OpCode { code: 0xAD, mnemonic: "RES 5, L", length: 1, cycles: 8, argument_type: ArgumentType::Implied, extended: true },
            0xAE => OpCode { code: 0xAE, mnemonic: "RES 5, (HL)", length: 1, cycles: 16, argument_type: ArgumentType::Implied, extended: true },
            0xAF => OpCode { code: 0xAF, mnemonic: "RES 5, A", length: 1, cycles: 8, argument_type: ArgumentType::Implied, extended: true },
            0xB0 => OpCode { code: 0xB0, mnemonic: "RES 6, B", length: 1, cycles: 8, argument_type: ArgumentType::Implied, extended: true },
            0xB1 => OpCode { code: 0xB1, mnemonic: "RES 6, C", length: 1, cycles: 8, argument_type: ArgumentType::Implied, extended: true },
            0xB2 => OpCode { code: 0xB2, mnemonic: "RES 6, D", length: 1, cycles: 8, argument_type: ArgumentType::Implied, extended: true },
            0xB3 => OpCode { code: 0xB3, mnemonic: "RES 6, E", length: 1, cycles: 8, argument_type: ArgumentType::Implied, extended: true },
            0xB4 => OpCode { code: 0xB4, mnemonic: "RES 6, H", length: 1, cycles: 8, argument_type: ArgumentType::Implied, extended: true },
            0xB5 => OpCode { code: 0xB5, mnemonic: "RES 6, L", length: 1, cycles: 8, argument_type: ArgumentType::Implied, extended: true },
            0xB6 => OpCode { code: 0xB6, mnemonic: "RES 6, (HL)", length: 1, cycles: 16, argument_type: ArgumentType::Implied, extended: true },
            0xB7 => OpCode { code: 0xB7, mnemonic: "RES 6, A", length: 1, cycles: 8, argument_type: ArgumentType::Implied, extended: true },
            0xB8 => OpCode { code: 0xB8, mnemonic: "RES 7, B", length: 1, cycles: 8, argument_type: ArgumentType::Implied, extended: true },
            0xB9 => OpCode { code: 0xB9, mnemonic: "RES 7, C", length: 1, cycles: 8, argument_type: ArgumentType::Implied, extended: true },
            0xBA => OpCode { code: 0xBA, mnemonic: "RES 7, D", length: 1, cycles: 8, argument_type: ArgumentType::Implied, extended: true },
            0xBB => OpCode { code: 0xBB, mnemonic: "RES 7, E", length: 1, cycles: 8, argument_type: ArgumentType::Implied, extended: true },
            0xBC => OpCode { code: 0xBC, mnemonic: "RES 7, H", length: 1, cycles: 8, argument_type: ArgumentType::Implied, extended: true },
            0xBD => OpCode { code: 0xBD, mnemonic: "RES 7, L", length: 1, cycles: 8, argument_type: ArgumentType::Implied, extended: true },
            0xBE => OpCode { code: 0xBE, mnemonic: "RES 7, (HL)", length: 1, cycles: 16, argument_type: ArgumentType::Implied, extended: true },
            0xBF => OpCode { code: 0xBF, mnemonic: "RES 7, A", length: 1, cycles: 8, argument_type: ArgumentType::Implied, extended: true },
            0xC0 => OpCode { code: 0xC0, mnemonic: "SET 0, B", length: 1, cycles: 8, argument_type: ArgumentType::Implied, extended: true },
            0xC1 => OpCode { code: 0xC1, mnemonic: "SET 0, C", length: 1, cycles: 8, argument_type: ArgumentType::Implied, extended: true },
            0xC2 => OpCode { code: 0xC2, mnemonic: "SET 0, D", length: 1, cycles: 8, argument_type: ArgumentType::Implied, extended: true },
            0xC3 => OpCode { code: 0xC3, mnemonic: "SET 0, E", length: 1, cycles: 8, argument_type: ArgumentType::Implied, extended: true },
            0xC4 => OpCode { code: 0xC4, mnemonic: "SET 0, H", length: 1, cycles: 8, argument_type: ArgumentType::Implied, extended: true },
            0xC5 => OpCode { code: 0xC5, mnemonic: "SET 0, L", length: 1, cycles: 8, argument_type: ArgumentType::Implied, extended: true },
            0xC6 => OpCode { code: 0xC6, mnemonic: "SET 0, (HL)", length: 1, cycles: 16, argument_type: ArgumentType::Implied, extended: true },
            0xC7 => OpCode { code: 0xC7, mnemonic: "SET 0, A", length: 1, cycles: 8, argument_type: ArgumentType::Implied, extended: true },
            0xC8 => OpCode { code: 0xC8, mnemonic: "SET 1, B", length: 1, cycles: 8, argument_type: ArgumentType::Implied, extended: true },
            0xC9 => OpCode { code: 0xC9, mnemonic: "SET 1, C", length: 1, cycles: 8, argument_type: ArgumentType::Implied, extended: true },
            0xCA => OpCode { code: 0xCA, mnemonic: "SET 1, D", length: 1, cycles: 8, argument_type: ArgumentType::Implied, extended: true },
            0xCB => OpCode { code: 0xCB, mnemonic: "SET 1, E", length: 1, cycles: 8, argument_type: ArgumentType::Implied, extended: true },
            0xCC => OpCode { code: 0xCC, mnemonic: "SET 1, H", length: 1, cycles: 8, argument_type: ArgumentType::Implied, extended: true },
            0xCD => OpCode { code: 0xCD, mnemonic: "SET 1, L", length: 1, cycles: 8, argument_type: ArgumentType::Implied, extended: true },
            0xCE => OpCode { code: 0xCE, mnemonic: "SET 1, (HL)", length: 1, cycles: 16, argument_type: ArgumentType::Implied, extended: true },
            0xCF => OpCode { code: 0xCF, mnemonic: "SET 1, A", length: 1, cycles: 8, argument_type: ArgumentType::Implied, extended: true },
            0xD0 => OpCode { code: 0xD0, mnemonic: "SET 2, B", length: 1, cycles: 8, argument_type: ArgumentType::Implied, extended: true },
            0xD1 => OpCode { code: 0xD1, mnemonic: "SET 2, C", length: 1, cycles: 8, argument_type: ArgumentType::Implied, extended: true },
            0xD2 => OpCode { code: 0xD2, mnemonic: "SET 2, D", length: 1, cycles: 8, argument_type: ArgumentType::Implied, extended: true },
            0xD3 => OpCode { code: 0xD3, mnemonic: "SET 2, E", length: 1, cycles: 8, argument_type: ArgumentType::Implied, extended: true },
            0xD4 => OpCode { code: 0xD4, mnemonic: "SET 2, H", length: 1, cycles: 8, argument_type: ArgumentType::Implied, extended: true },
            0xD5 => OpCode { code: 0xD5, mnemonic: "SET 2, L", length: 1, cycles: 8, argument_type: ArgumentType::Implied, extended: true },
            0xD6 => OpCode { code: 0xD6, mnemonic: "SET 2, (HL)", length: 1, cycles: 16, argument_type: ArgumentType::Implied, extended: true },
            0xD7 => OpCode { code: 0xD7, mnemonic: "SET 2, A", length: 1, cycles: 8, argument_type: ArgumentType::Implied, extended: true },
            0xD8 => OpCode { code: 0xD8, mnemonic: "SET 3, B", length: 1, cycles: 8, argument_type: ArgumentType::Implied, extended: true },
            0xD9 => OpCode { code: 0xD9, mnemonic: "SET 3, C", length: 1, cycles: 8, argument_type: ArgumentType::Implied, extended: true },
            0xDA => OpCode { code: 0xDA, mnemonic: "SET 3, D", length: 1, cycles: 8, argument_type: ArgumentType::Implied, extended: true },
            0xDB => OpCode { code: 0xDB, mnemonic: "SET 3, E", length: 1, cycles: 8, argument_type: ArgumentType::Implied, extended: true },
            0xDC => OpCode { code: 0xDC, mnemonic: "SET 3, H", length: 1, cycles: 8, argument_type: ArgumentType::Implied, extended: true },
            0xDD => OpCode { code: 0xDD, mnemonic: "SET 3, L", length: 1, cycles: 8, argument_type: ArgumentType::Implied, extended: true },
            0xDE => OpCode { code: 0xDE, mnemonic: "SET 3, (HL)", length: 1, cycles: 16, argument_type: ArgumentType::Implied, extended: true },
            0xDF => OpCode { code: 0xDF, mnemonic: "SET 3, A", length: 1, cycles: 8, argument_type: ArgumentType::Implied, extended: true },
            0xE0 => OpCode { code: 0xE0, mnemonic: "SET 4, B", length: 1, cycles: 8, argument_type: ArgumentType::Implied, extended: true },
            0xE1 => OpCode { code: 0xE1, mnemonic: "SET 4, C", length: 1, cycles: 8, argument_type: ArgumentType::Implied, extended: true },
            0xE2 => OpCode { code: 0xE2, mnemonic: "SET 4, D", length: 1, cycles: 8, argument_type: ArgumentType::Implied, extended: true },
            0xE3 => OpCode { code: 0xE3, mnemonic: "SET 4, E", length: 1, cycles: 8, argument_type: ArgumentType::Implied, extended: true },
            0xE4 => OpCode { code: 0xE4, mnemonic: "SET 4, H", length: 1, cycles: 8, argument_type: ArgumentType::Implied, extended: true },
            0xE5 => OpCode { code: 0xE5, mnemonic: "SET 4, L", length: 1, cycles: 8, argument_type: ArgumentType::Implied, extended: true },
            0xE6 => OpCode { code: 0xE6, mnemonic: "SET 4, (HL)", length: 1, cycles: 16, argument_type: ArgumentType::Implied, extended: true },
            0xE7 => OpCode { code: 0xE7, mnemonic: "SET 4, A", length: 1, cycles: 8, argument_type: ArgumentType::Implied, extended: true },
            0xE8 => OpCode { code: 0xE8, mnemonic: "SET 5, B", length: 1, cycles: 8, argument_type: ArgumentType::Implied, extended: true },
            0xE9 => OpCode { code: 0xE9, mnemonic: "SET 5, C", length: 1, cycles: 8, argument_type: ArgumentType::Implied, extended: true },
            0xEA => OpCode { code: 0xEA, mnemonic: "SET 5, D", length: 1, cycles: 8, argument_type: ArgumentType::Implied, extended: true },
            0xEB => OpCode { code: 0xEB, mnemonic: "SET 5, E", length: 1, cycles: 8, argument_type: ArgumentType::Implied, extended: true },
            0xEC => OpCode { code: 0xEC, mnemonic: "SET 5, H", length: 1, cycles: 8, argument_type: ArgumentType::Implied, extended: true },
            0xED => OpCode { code: 0xED, mnemonic: "SET 5, L", length: 1, cycles: 8, argument_type: ArgumentType::Implied, extended: true },
            0xEE => OpCode { code: 0xEE, mnemonic: "SET 5, (HL)", length: 1, cycles: 16, argument_type: ArgumentType::Implied, extended: true },
            0xEF => OpCode { code: 0xEF, mnemonic: "SET 5, A", length: 1, cycles: 8, argument_type: ArgumentType::Implied, extended: true },
            0xF0 => OpCode { code: 0xF0, mnemonic: "SET 6, B", length: 1, cycles: 8, argument_type: ArgumentType::Implied, extended: true },
            0xF1 => OpCode { code: 0xF1, mnemonic: "SET 6, C", length: 1, cycles: 8, argument_type: ArgumentType::Implied, extended: true },
            0xF2 => OpCode { code: 0xF2, mnemonic: "SET 6, D", length: 1, cycles: 8, argument_type: ArgumentType::Implied, extended: true },
            0xF3 => OpCode { code: 0xF3, mnemonic: "SET 6, E", length: 1, cycles: 8, argument_type: ArgumentType::Implied, extended: true },
            0xF4 => OpCode { code: 0xF4, mnemonic: "SET 6, H", length: 1, cycles: 8, argument_type: ArgumentType::Implied, extended: true },
            0xF5 => OpCode { code: 0xF5, mnemonic: "SET 6, L", length: 1, cycles: 8, argument_type: ArgumentType::Implied, extended: true },
            0xF6 => OpCode { code: 0xF6, mnemonic: "SET 6, (HL)", length: 1, cycles: 16, argument_type: ArgumentType::Implied, extended: true },
            0xF7 => OpCode { code: 0xF7, mnemonic: "SET 6, A", length: 1, cycles: 8, argument_type: ArgumentType::Implied, extended: true },
            0xF8 => OpCode { code: 0xF8, mnemonic: "SET 7, B", length: 1, cycles: 8, argument_type: ArgumentType::Implied, extended: true },
            0xF9 => OpCode { code: 0xF9, mnemonic: "SET 7, C", length: 1, cycles: 8, argument_type: ArgumentType::Implied, extended: true },
            0xFA => OpCode { code: 0xFA, mnemonic: "SET 7, D", length: 1, cycles: 8, argument_type: ArgumentType::Implied, extended: true },
            0xFB => OpCode { code: 0xFB, mnemonic: "SET 7, E", length: 1, cycles: 8, argument_type: ArgumentType::Implied, extended: true },
            0xFC => OpCode { code: 0xFC, mnemonic: "SET 7, H", length: 1, cycles: 8, argument_type: ArgumentType::Implied, extended: true },
            0xFD => OpCode { code: 0xFD, mnemonic: "SET 7, L", length: 1, cycles: 8, argument_type: ArgumentType::Implied, extended: true },
            0xFE => OpCode { code: 0xFE, mnemonic: "SET 7, (HL)", length: 1, cycles: 16, argument_type: ArgumentType::Implied, extended: true },
            _ => OpCode { code: 0xFF, mnemonic: "SET 7, A", length: 1, cycles: 8, argument_type: ArgumentType::Implied, extended: true },
        }
    }
}

/// Every byte but eleven is an unprefixed opcode, and every byte after the
/// 0xCB prefix is one; each decodes to an instruction with that byte as its code.
pub proof fn lemma_defined_opcodes(b: u8)
    ensures
        (spec_base_opcode(b) is None) == (b == 0xD3 || b == 0xDB || b == 0xDD || b == 0xE3 || b
            == 0xE4 || b == 0xEB || b == 0xEC || b == 0xED || b == 0xF4 || b == 0xFC || b == 0xFD),
        spec_base_opcode(b) matches Some(op) ==> op.code == b && !op.extended,
        spec_cb_opcode(b).code == b && spec_cb_opcode(b).extended,
{
}

} // verus!
