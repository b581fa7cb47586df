use vstd::prelude::*;

use crate::gameboy::cpu::semantics::{alu8, condition, reg8, shift_carry, shift_value};
use crate::gameboy::opcodes::{spec_base_opcode, spec_cb_opcode, ArgumentType};
use crate::gameboy::registers::{Flags, Registers};

verus! {

/// The name of register operand `i` of an instruction's encoding (its three
/// low bits, or bits 3 to 5): B, C, D, E, H, L, (HL) for the byte at HL, A.
pub open spec fn operand_name(i: int) -> Seq<char> {
    if i == 0 {
        "B"@
    } else if i == 1 {
        "C"@
    } else if i == 2 {
        "D"@
    } else if i == 3 {
        "E"@
    } else if i == 4 {
        "H"@
    } else if i == 5 {
        "L"@
    } else if i == 6 {
        "(HL)"@
    } else {
        "A"@
    }
}

/// The name of shift or rotation `k` of the prefixed instructions 0x00-0x3F.
pub open spec fn shift_name(k: int) -> Seq<char> {
    if k == 0 {
        "RLC"@
    } else if k == 1 {
        "RRC"@
    } else if k == 2 {
        "RL"@
    } else if k == 3 {
        "RR"@
    } else if k == 4 {
        "SLA"@
    } else if k == 5 {
        "SRA"@
    } else if k == 6 {
        "SWAP"@
    } else {
        "SRL"@
    }
}

/// The name of arithmetic operation `k` of instructions 0x80-0xBF, with the
/// "A, " of those that name their destination.
pub open spec fn alu_name(k: int) -> Seq<char> {
    if k == 0 {
        "ADD A, "@
    } else if k == 1 {
        "ADC A, "@
    } else if k == 2 {
        "SUB "@
    } else if k == 3 {
        "SBC A, "@
    } else if k == 4 {
        "AND "@
    } else if k == 5 {
        "XOR "@
    } else if k == 6 {
        "OR "@
    } else {
        "CP "@
    }
}

/// The decimal digit of `n`, for `n` below 8.
pub open spec fn digit(n: int) -> Seq<char> {
    seq![(n + 48) as char]
}

/// The text of prefixed instruction `b`: a shift or rotation and its
/// operand below 0x40, then BIT, RES and SET with the bit number (bits 3 to
/// 5) and the operand.
pub open spec fn cb_text(b: u8) -> Seq<char> {
    let r = operand_name((b % 8) as int);
    if b < 0x40 {
        shift_name((b / 8) as int) + " "@ + r
    } else {
        let verb = if b < 0x80 {
            "BIT "@
        } else if b < 0xC0 {
            "RES "@
        } else {
            "SET "@
        };
        verb + digit(((b / 8) % 8) as int) + ", "@ + r
    }
}

/// What `lemma_cb_table` states of prefixed instruction `b`.
spec fn cb_entry_named(b: u8) -> bool {
    &&& spec_cb_opcode(b).code == b
    &&& spec_cb_opcode(b).extended
    &&& spec_cb_opcode(b).length == 1
    &&& spec_cb_opcode(b).argument_type == ArgumentType::Implied
    &&& spec_cb_opcode(b).cycles == (if b % 8 != 6 { 8u8 } else if 0x40 <= b < 0x80 { 12u8 } else { 16u8 })
    &&& spec_cb_opcode(b).mnemonic@ == cb_text(b)
}

proof fn lemma_cb_row_00(b: u8)
    requires
        0x00 <= b < 0x08,
    ensures
        cb_entry_named(b),
{
    reveal_strlit(" ");
    reveal_strlit("(HL)");
    reveal_strlit("A");
    reveal_strlit("B");
    reveal_strlit("C");
    reveal_strlit("D");
    reveal_strlit("E");
    reveal_strlit("H");
    reveal_strlit("L");
    reveal_strlit("RLC");
    if b == 0x00 {
        reveal_strlit("RLC B");
        assert("RLC B"@ =~= "RLC"@ + " "@ + "B"@);
    } else if b == 0x01 {
        reveal_strlit("RLC C");
        assert("RLC C"@ =~= "RLC"@ + " "@ + "C"@);
    } else if b == 0x02 {
        reveal_strlit("RLC D");
        assert("RLC D"@ =~= "RLC"@ + " "@ + "D"@);
    } else if b == 0x03 {
        reveal_strlit("RLC E");
        assert("RLC E"@ =~= "RLC"@ + " "@ + "E"@);
    } else if b == 0x04 {
        reveal_strlit("RLC H");
        assert("RLC H"@ =~= "RLC"@ + " "@ + "H"@);
    } else if b == 0x05 {
        reveal_strlit("RLC L");
        assert("RLC L"@ =~= "RLC"@ + " "@ + "L"@);
    } else if b == 0x06 {
        reveal_strlit("RLC (HL)");
        assert("RLC (HL)"@ =~= "RLC"@ + " "@ + "(HL)"@);
    } else if b == 0x07 {
        reveal_strlit("RLC A");
        assert("RLC A"@ =~= "RLC"@ + " "@ + "A"@);
    }
}

proof fn lemma_cb_row_01(b: u8)
    requires
        0x08 <= b < 0x10,
    ensures
        cb_entry_named(b),
{
    reveal_strlit(" ");
    reveal_strlit("(HL)");
    reveal_strlit("A");
    reveal_strlit("B");
    reveal_strlit("C");
    reveal_strlit("D");
    reveal_strlit("E");
    reveal_strlit("H");
    reveal_strlit("L");
    reveal_strlit("RRC");
    if b == 0x08 {
        reveal_strlit("RRC B");
        assert("RRC B"@ =~= "RRC"@ + " "@ + "B"@);
    } else if b == 0x09 {
        reveal_strlit("RRC C");
        assert("RRC C"@ =~= "RRC"@ + " "@ + "C"@);
    } else if b == 0x0A {
        reveal_strlit("RRC D");
        assert("RRC D"@ =~= "RRC"@ + " "@ + "D"@);
    } else if b == 0x0B {
        reveal_strlit("RRC E");
        assert("RRC E"@ =~= "RRC"@ + " "@ + "E"@);
    } else if b == 0x0C {
        reveal_strlit("RRC H");
        assert("RRC H"@ =~= "RRC"@ + " "@ + "H"@);
    } else if b == 0x0D {
        reveal_strlit("RRC L");
        assert("RRC L"@ =~= "RRC"@ + " "@ + "L"@);
    } else if b == 0x0E {
        reveal_strlit("RRC (HL)");
        assert("RRC (HL)"@ =~= "RRC"@ + " "@ + "(HL)"@);
    } else if b == 0x0F {
        reveal_strlit("RRC A");
        assert("RRC A"@ =~= "RRC"@ + " "@ + "A"@);
    }
}

proof fn lemma_cb_row_02(b: u8)
    requires
        0x10 <= b < 0x18,
    ensures
        cb_entry_named(b),
{
    reveal_strlit(" ");
    reveal_strlit("(HL)");
    reveal_strlit("A");
    reveal_strlit("B");
    reveal_strlit("C");
    reveal_strlit("D");
    reveal_strlit("E");
    reveal_strlit("H");
    reveal_strlit("L");
    reveal_strlit("RL");
    if b == 0x10 {
        reveal_strlit("RL B");
        assert("RL B"@ =~= "RL"@ + " "@ + "B"@);
    } else if b == 0x11 {
        reveal_strlit("RL C");
        assert("RL C"@ =~= "RL"@ + " "@ + "C"@);
    } else if b == 0x12 {
        reveal_strlit("RL D");
        assert("RL D"@ =~= "RL"@ + " "@ + "D"@);
    } else if b == 0x13 {
        reveal_strlit("RL E");
        assert("RL E"@ =~= "RL"@ + " "@ + "E"@);
    } else if b == 0x14 {
        reveal_strlit("RL H");
        assert("RL H"@ =~= "RL"@ + " "@ + "H"@);
    } else if b == 0x15 {
        reveal_strlit("RL L");
        assert("RL L"@ =~= "RL"@ + " "@ + "L"@);
    } else if b == 0x16 {
        reveal_strlit("RL (HL)");
        assert("RL (HL)"@ =~= "RL"@ + " "@ + "(HL)"@);
    } else if b == 0x17 {
        reveal_strlit("RL A");
        assert("RL A"@ =~= "RL"@ + " "@ + "A"@);
    }
}

proof fn lemma_cb_row_03(b: u8)
    requires
        0x18 <= b < 0x20,
    ensures
        cb_entry_named(b),
{
    reveal_strlit(" ");
    reveal_strlit("(HL)");
    reveal_strlit("A");
    reveal_strlit("B");
    reveal_strlit("C");
    reveal_strlit("D");
    reveal_strlit("E");
    reveal_strlit("H");
    reveal_strlit("L");
    reveal_strlit("RR");
    if b == 0x18 {
        reveal_strlit("RR B");
        assert("RR B"@ =~= "RR"@ + " "@ + "B"@);
    } else if b == 0x19 {
        reveal_strlit("RR C");
        assert("RR C"@ =~= "RR"@ + " "@ + "C"@);
    } else if b == 0x1A {
        reveal_strlit("RR D");
        assert("RR D"@ =~= "RR"@ + " "@ + "D"@);
    } else if b == 0x1B {
        reveal_strlit("RR E");
        assert("RR E"@ =~= "RR"@ + " "@ + "E"@);
    } else if b == 0x1C {
        reveal_strlit("RR H");
        assert("RR H"@ =~= "RR"@ + " "@ + "H"@);
    } else if b == 0x1D {
        reveal_strlit("RR L");
        assert("RR L"@ =~= "RR"@ + " "@ + "L"@);
    } else if b == 0x1E {
        reveal_strlit("RR (HL)");
        assert("RR (HL)"@ =~= "RR"@ + " "@ + "(HL)"@);
    } else if b == 0x1F {
        reveal_strlit("RR A");
        assert("RR A"@ =~= "RR"@ + " "@ + "A"@);
    }
}

proof fn lemma_cb_row_04(b: u8)
    requires
        0x20 <= b < 0x28,
    ensures
        cb_entry_named(b),
{
    reveal_strlit(" ");
    reveal_strlit("(HL)");
    reveal_strlit("A");
    reveal_strlit("B");
    reveal_strlit("C");
    reveal_strlit("D");
    reveal_strlit("E");
    reveal_strlit("H");
    reveal_strlit("L");
    reveal_strlit("SLA");
    if b == 0x20 {
        reveal_strlit("SLA B");
        assert("SLA B"@ =~= "SLA"@ + " "@ + "B"@);
    } else if b == 0x21 {
        reveal_strlit("SLA C");
        assert("SLA C"@ =~= "SLA"@ + " "@ + "C"@);
    } else if b == 0x22 {
        reveal_strlit("SLA D");
        assert("SLA D"@ =~= "SLA"@ + " "@ + "D"@);
    } else if b == 0x23 {
        reveal_strlit("SLA E");
        assert("SLA E"@ =~= "SLA"@ + " "@ + "E"@);
    } else if b == 0x24 {
        reveal_strlit("SLA H");
        assert("SLA H"@ =~= "SLA"@ + " "@ + "H"@);
    } else if b == 0x25 {
        reveal_strlit("SLA L");
        assert("SLA L"@ =~= "SLA"@ + " "@ + "L"@);
    } else if b == 0x26 {
        reveal_strlit("SLA (HL)");
        assert("SLA (HL)"@ =~= "SLA"@ + " "@ + "(HL)"@);
    } else if b == 0x27 {
        reveal_strlit("SLA A");
        assert("SLA A"@ =~= "SLA"@ + " "@ + "A"@);
    }
}

proof fn lemma_cb_row_05(b: u8)
    requires
        0x28 <= b < 0x30,
    ensures
        cb_entry_named(b),
{
    reveal_strlit(" ");
    reveal_strlit("(HL)");
    reveal_strlit("A");
    reveal_strlit("B");
    reveal_strlit("C");
    reveal_strlit("D");
    reveal_strlit("E");
    reveal_strlit("H");
    reveal_strlit("L");
    reveal_strlit("SRA");
    if b == 0x28 {
        reveal_strlit("SRA B");
        assert("SRA B"@ =~= "SRA"@ + " "@ + "B"@);
    } else if b == 0x29 {
        reveal_strlit("SRA C");
        assert("SRA C"@ =~= "SRA"@ + " "@ + "C"@);
    } else if b == 0x2A {
        reveal_strlit("SRA D");
        assert("SRA D"@ =~= "SRA"@ + " "@ + "D"@);
    } else if b == 0x2B {
        reveal_strlit("SRA E");
        assert("SRA E"@ =~= "SRA"@ + " "@ + "E"@);
    } else if b == 0x2C {
        reveal_strlit("SRA H");
        assert("SRA H"@ =~= "SRA"@ + " "@ + "H"@);
    } else if b == 0x2D {
        reveal_strlit("SRA L");
        assert("SRA L"@ =~= "SRA"@ + " "@ + "L"@);
    } else if b == 0x2E {
        reveal_strlit("SRA (HL)");
        assert("SRA (HL)"@ =~= "SRA"@ + " "@ + "(HL)"@);
    } else if b == 0x2F {
        reveal_strlit("SRA A");
        assert("SRA A"@ =~= "SRA"@ + " "@ + "A"@);
    }
}

proof fn lemma_cb_row_06(b: u8)
    requires
        0x30 <= b < 0x38,
    ensures
        cb_entry_named(b),
{
    reveal_strlit(" ");
    reveal_strlit("(HL)");
    reveal_strlit("A");
    reveal_strlit("B");
    reveal_strlit("C");
    reveal_strlit("D");
    reveal_strlit("E");
    reveal_strlit("H");
    reveal_strlit("L");
    reveal_strlit("SWAP");
    if b == 0x30 {
        reveal_strlit("SWAP B");
        assert("SWAP B"@ =~= "SWAP"@ + " "@ + "B"@);
    } else if b == 0x31 {
        reveal_strlit("SWAP C");
        assert("SWAP C"@ =~= "SWAP"@ + " "@ + "C"@);
    } else if b == 0x32 {
        reveal_strlit("SWAP D");
        assert("SWAP D"@ =~= "SWAP"@ + " "@ + "D"@);
    } else if b == 0x33 {
        reveal_strlit("SWAP E");
        assert("SWAP E"@ =~= "SWAP"@ + " "@ + "E"@);
    } else if b == 0x34 {
        reveal_strlit("SWAP H");
        assert("SWAP H"@ =~= "SWAP"@ + " "@ + "H"@);
    } else if b == 0x35 {
        reveal_strlit("SWAP L");
        assert("SWAP L"@ =~= "SWAP"@ + " "@ + "L"@);
    } else if b == 0x36 {
        reveal_strlit("SWAP (HL)");
        assert("SWAP (HL)"@ =~= "SWAP"@ + " "@ + "(HL)"@);
    } else if b == 0x37 {
        reveal_strlit("SWAP A");
        assert("SWAP A"@ =~= "SWAP"@ + " "@ + "A"@);
    }
}

proof fn lemma_cb_row_07(b: u8)
    requires
        0x38 <= b < 0x40,
    ensures
        cb_entry_named(b),
{
    reveal_strlit(" ");
    reveal_strlit("(HL)");
    reveal_strlit("A");
    reveal_strlit("B");
    reveal_strlit("C");
    reveal_strlit("D");
    reveal_strlit("E");
    reveal_strlit("H");
    reveal_strlit("L");
    reveal_strlit("SRL");
    if b == 0x38 {
        reveal_strlit("SRL B");
        assert("SRL B"@ =~= "SRL"@ + " "@ + "B"@);
    } else if b == 0x39 {
        reveal_strlit("SRL C");
        assert("SRL C"@ =~= "SRL"@ + " "@ + "C"@);
    } else if b == 0x3A {
        reveal_strlit("SRL D");
        assert("SRL D"@ =~= "SRL"@ + " "@ + "D"@);
    } else if b == 0x3B {
        reveal_strlit("SRL E");
        assert("SRL E"@ =~= "SRL"@ + " "@ + "E"@);
    } else if b == 0x3C {
        reveal_strlit("SRL H");
        assert("SRL H"@ =~= "SRL"@ + " "@ + "H"@);
    } else if b == 0x3D {
        reveal_strlit("SRL L");
        assert("SRL L"@ =~= "SRL"@ + " "@ + "L"@);
    } else if b == 0x3E {
        reveal_strlit("SRL (HL)");
        assert("SRL (HL)"@ =~= "SRL"@ + " "@ + "(HL)"@);
    } else if b == 0x3F {
        reveal_strlit("SRL A");
        assert("SRL A"@ =~= "SRL"@ + " "@ + "A"@);
    }
}

proof fn lemma_cb_row_08(b: u8)
    requires
        0x40 <= b < 0x48,
    ensures
        cb_entry_named(b),
{
    reveal_strlit("(HL)");
    reveal_strlit(", ");
    reveal_strlit("A");
    reveal_strlit("B");
    reveal_strlit("BIT ");
    reveal_strlit("C");
    reveal_strlit("D");
    reveal_strlit("E");
    reveal_strlit("H");
    reveal_strlit("L");
    if b == 0x40 {
        reveal_strlit("BIT 0, B");
        assert("BIT 0, B"@ =~= "BIT "@ + digit(0) + ", "@ + "B"@);
    } else if b == 0x41 {
        reveal_strlit("BIT 0, C");
        assert("BIT 0, C"@ =~= "BIT "@ + digit(0) + ", "@ + "C"@);
    } else if b == 0x42 {
        reveal_strlit("BIT 0, D");
        assert("BIT 0, D"@ =~= "BIT "@ + digit(0) + ", "@ + "D"@);
    } else if b == 0x43 {
        reveal_strlit("BIT 0, E");
        assert("BIT 0, E"@ =~= "BIT "@ + digit(0) + ", "@ + "E"@);
    } else if b == 0x44 {
        reveal_strlit("BIT 0, H");
        assert("BIT 0, H"@ =~= "BIT "@ + digit(0) + ", "@ + "H"@);
    } else if b == 0x45 {
        reveal_strlit("BIT 0, L");
        assert("BIT 0, L"@ =~= "BIT "@ + digit(0) + ", "@ + "L"@);
    } else if b == 0x46 {
        reveal_strlit("BIT 0, (HL)");
        assert("BIT 0, (HL)"@ =~= "BIT "@ + digit(0) + ", "@ + "(HL)"@);
    } else if b == 0x47 {
        reveal_strlit("BIT 0, A");
        assert("BIT 0, A"@ =~= "BIT "@ + digit(0) + ", "@ + "A"@);
    }
}

proof fn lemma_cb_row_09(b: u8)
    requires
        0x48 <= b < 0x50,
    ensures
        cb_entry_named(b),
{
    reveal_strlit("(HL)");
    reveal_strlit(", ");
    reveal_strlit("A");
    reveal_strlit("B");
    reveal_strlit("BIT ");
    reveal_strlit("C");
    reveal_strlit("D");
    reveal_strlit("E");
    reveal_strlit("H");
    reveal_strlit("L");
    if b == 0x48 {
        reveal_strlit("BIT 1, B");
        assert("BIT 1, B"@ =~= "BIT "@ + digit(1) + ", "@ + "B"@);
    } else if b == 0x49 {
        reveal_strlit("BIT 1, C");
        assert("BIT 1, C"@ =~= "BIT "@ + digit(1) + ", "@ + "C"@);
    } else if b == 0x4A {
        reveal_strlit("BIT 1, D");
        assert("BIT 1, D"@ =~= "BIT "@ + digit(1) + ", "@ + "D"@);
    } else if b == 0x4B {
        reveal_strlit("BIT 1, E");
        assert("BIT 1, E"@ =~= "BIT "@ + digit(1) + ", "@ + "E"@);
    } else if b == 0x4C {
        reveal_strlit("BIT 1, H");
        assert("BIT 1, H"@ =~= "BIT "@ + digit(1) + ", "@ + "H"@);
    } else if b == 0x4D {
        reveal_strlit("BIT 1, L");
        assert("BIT 1, L"@ =~= "BIT "@ + digit(1) + ", "@ + "L"@);
    } else if b == 0x4E {
        reveal_strlit("BIT 1, (HL)");
        assert("BIT 1, (HL)"@ =~= "BIT "@ + digit(1) + ", "@ + "(HL)"@);
    } else if b == 0x4F {
        reveal_strlit("BIT 1, A");
        assert("BIT 1, A"@ =~= "BIT "@ + digit(1) + ", "@ + "A"@);
    }
}

proof fn lemma_cb_row_10(b: u8)
    requires
        0x50 <= b < 0x58,
    ensures
        cb_entry_named(b),
{
    reveal_strlit("(HL)");
    reveal_strlit(", ");
    reveal_strlit("A");
    reveal_strlit("B");
    reveal_strlit("BIT ");
    reveal_strlit("C");
    reveal_strlit("D");
    reveal_strlit("E");
    reveal_strlit("H");
    reveal_strlit("L");
    if b == 0x50 {
        reveal_strlit("BIT 2, B");
        assert("BIT 2, B"@ =~= "BIT "@ + digit(2) + ", "@ + "B"@);
    } else if b == 0x51 {
        reveal_strlit("BIT 2, C");
        assert("BIT 2, C"@ =~= "BIT "@ + digit(2) + ", "@ + "C"@);
    } else if b == 0x52 {
        reveal_strlit("BIT 2, D");
        assert("BIT 2, D"@ =~= "BIT "@ + digit(2) + ", "@ + "D"@);
    } else if b == 0x53 {
        reveal_strlit("BIT 2, E");
        assert("BIT 2, E"@ =~= "BIT "@ + digit(2) + ", "@ + "E"@);
    } else if b == 0x54 {
        reveal_strlit("BIT 2, H");
        assert("BIT 2, H"@ =~= "BIT "@ + digit(2) + ", "@ + "H"@);
    } else if b == 0x55 {
        reveal_strlit("BIT 2, L");
        assert("BIT 2, L"@ =~= "BIT "@ + digit(2) + ", "@ + "L"@);
    } else if b == 0x56 {
        reveal_strlit("BIT 2, (HL)");
        assert("BIT 2, (HL)"@ =~= "BIT "@ + digit(2) + ", "@ + "(HL)"@);
    } else if b == 0x57 {
        reveal_strlit("BIT 2, A");
        assert("BIT 2, A"@ =~= "BIT "@ + digit(2) + ", "@ + "A"@);
    }
}

proof fn lemma_cb_row_11(b: u8)
    requires
        0x58 <= b < 0x60,
    ensures
        cb_entry_named(b),
{
    reveal_strlit("(HL)");
    reveal_strlit(", ");
    reveal_strlit("A");
    reveal_strlit("B");
    reveal_strlit("BIT ");
    reveal_strlit("C");
    reveal_strlit("D");
    reveal_strlit("E");
    reveal_strlit("H");
    reveal_strlit("L");
    if b == 0x58 {
        reveal_strlit("BIT 3, B");
        assert("BIT 3, B"@ =~= "BIT "@ + digit(3) + ", "@ + "B"@);
    } else if b == 0x59 {
        reveal_strlit("BIT 3, C");
        assert("BIT 3, C"@ =~= "BIT "@ + digit(3) + ", "@ + "C"@);
    } else if b == 0x5A {
        reveal_strlit("BIT 3, D");
        assert("BIT 3, D"@ =~= "BIT "@ + digit(3) + ", "@ + "D"@);
    } else if b == 0x5B {
        reveal_strlit("BIT 3, E");
        assert("BIT 3, E"@ =~= "BIT "@ + digit(3) + ", "@ + "E"@);
    } else if b == 0x5C {
        reveal_strlit("BIT 3, H");
        assert("BIT 3, H"@ =~= "BIT "@ + digit(3) + ", "@ + "H"@);
    } else if b == 0x5D {
        reveal_strlit("BIT 3, L");
        assert("BIT 3, L"@ =~= "BIT "@ + digit(3) + ", "@ + "L"@);
    } else if b == 0x5E {
        reveal_strlit("BIT 3, (HL)");
        assert("BIT 3, (HL)"@ =~= "BIT "@ + digit(3) + ", "@ + "(HL)"@);
    } else if b == 0x5F {
        reveal_strlit("BIT 3, A");
        assert("BIT 3, A"@ =~= "BIT "@ + digit(3) + ", "@ + "A"@);
    }
}

proof fn lemma_cb_row_12(b: u8)
    requires
        0x60 <= b < 0x68,
    ensures
        cb_entry_named(b),
{
    reveal_strlit("(HL)");
    reveal_strlit(", ");
    reveal_strlit("A");
    reveal_strlit("B");
    reveal_strlit("BIT ");
    reveal_strlit("C");
    reveal_strlit("D");
    reveal_strlit("E");
    reveal_strlit("H");
    reveal_strlit("L");
    if b == 0x60 {
        reveal_strlit("BIT 4, B");
        assert("BIT 4, B"@ =~= "BIT "@ + digit(4) + ", "@ + "B"@);
    } else if b == 0x61 {
        reveal_strlit("BIT 4, C");
        assert("BIT 4, C"@ =~= "BIT "@ + digit(4) + ", "@ + "C"@);
    } else if b == 0x62 {
        reveal_strlit("BIT 4, D");
        assert("BIT 4, D"@ =~= "BIT "@ + digit(4) + ", "@ + "D"@);
    } else if b == 0x63 {
        reveal_strlit("BIT 4, E");
        assert("BIT 4, E"@ =~= "BIT "@ + digit(4) + ", "@ + "E"@);
    } else if b == 0x64 {
        reveal_strlit("BIT 4, H");
        assert("BIT 4, H"@ =~= "BIT "@ + digit(4) + ", "@ + "H"@);
    } else if b == 0x65 {
        reveal_strlit("BIT 4, L");
        assert("BIT 4, L"@ =~= "BIT "@ + digit(4) + ", "@ + "L"@);
    } else if b == 0x66 {
        reveal_strlit("BIT 4, (HL)");
        assert("BIT 4, (HL)"@ =~= "BIT "@ + digit(4) + ", "@ + "(HL)"@);
    } else if b == 0x67 {
        reveal_strlit("BIT 4, A");
        assert("BIT 4, A"@ =~= "BIT "@ + digit(4) + ", "@ + "A"@);
    }
}

proof fn lemma_cb_row_13(b: u8)
    requires
        0x68 <= b < 0x70,
    ensures
        cb_entry_named(b),
{
    reveal_strlit("(HL)");
    reveal_strlit(", ");
    reveal_strlit("A");
    reveal_strlit("B");
    reveal_strlit("BIT ");
    reveal_strlit("C");
    reveal_strlit("D");
    reveal_strlit("E");
    reveal_strlit("H");
    reveal_strlit("L");
    if b == 0x68 {
        reveal_strlit("BIT 5, B");
        assert("BIT 5, B"@ =~= "BIT "@ + digit(5) + ", "@ + "B"@);
    } else if b == 0x69 {
        reveal_strlit("BIT 5, C");
        assert("BIT 5, C"@ =~= "BIT "@ + digit(5) + ", "@ + "C"@);
    } else if b == 0x6A {
        reveal_strlit("BIT 5, D");
        assert("BIT 5, D"@ =~= "BIT "@ + digit(5) + ", "@ + "D"@);
    } else if b == 0x6B {
        reveal_strlit("BIT 5, E");
        assert("BIT 5, E"@ =~= "BIT "@ + digit(5) + ", "@ + "E"@);
    } else if b == 0x6C {
        reveal_strlit("BIT 5, H");
        assert("BIT 5, H"@ =~= "BIT "@ + digit(5) + ", "@ + "H"@);
    } else if b == 0x6D {
        reveal_strlit("BIT 5, L");
        assert("BIT 5, L"@ =~= "BIT "@ + digit(5) + ", "@ + "L"@);
    } else if b == 0x6E {
        reveal_strlit("BIT 5, (HL)");
        assert("BIT 5, (HL)"@ =~= "BIT "@ + digit(5) + ", "@ + "(HL)"@);
    } else if b == 0x6F {
        reveal_strlit("BIT 5, A");
        assert("BIT 5, A"@ =~= "BIT "@ + digit(5) + ", "@ + "A"@);
    }
}

proof fn lemma_cb_row_14(b: u8)
    requires
        0x70 <= b < 0x78,
    ensures
        cb_entry_named(b),
{
    reveal_strlit("(HL)");
    reveal_strlit(", ");
    reveal_strlit("A");
    reveal_strlit("B");
    reveal_strlit("BIT ");
    reveal_strlit("C");
    reveal_strlit("D");
    reveal_strlit("E");
    reveal_strlit("H");
    reveal_strlit("L");
    if b == 0x70 {
        reveal_strlit("BIT 6, B");
        assert("BIT 6, B"@ =~= "BIT "@ + digit(6) + ", "@ + "B"@);
    } else if b == 0x71 {
        reveal_strlit("BIT 6, C");
        assert("BIT 6, C"@ =~= "BIT "@ + digit(6) + ", "@ + "C"@);
    } else if b == 0x72 {
        reveal_strlit("BIT 6, D");
        assert("BIT 6, D"@ =~= "BIT "@ + digit(6) + ", "@ + "D"@);
    } else if b == 0x73 {
        reveal_strlit("BIT 6, E");
        assert("BIT 6, E"@ =~= "BIT "@ + digit(6) + ", "@ + "E"@);
    } else if b == 0x74 {
        reveal_strlit("BIT 6, H");
        assert("BIT 6, H"@ =~= "BIT "@ + digit(6) + ", "@ + "H"@);
    } else if b == 0x75 {
        reveal_strlit("BIT 6, L");
        assert("BIT 6, L"@ =~= "BIT "@ + digit(6) + ", "@ + "L"@);
    } else if b == 0x76 {
        reveal_strlit("BIT 6, (HL)");
        assert("BIT 6, (HL)"@ =~= "BIT "@ + digit(6) + ", "@ + "(HL)"@);
    } else if b == 0x77 {
        reveal_strlit("BIT 6, A");
        assert("BIT 6, A"@ =~= "BIT "@ + digit(6) + ", "@ + "A"@);
    }
}

proof fn lemma_cb_row_15(b: u8)
    requires
        0x78 <= b < 0x80,
    ensures
        cb_entry_named(b),
{
    reveal_strlit("(HL)");
    reveal_strlit(", ");
    reveal_strlit("A");
    reveal_strlit("B");
    reveal_strlit("BIT ");
    reveal_strlit("C");
    reveal_strlit("D");
    reveal_strlit("E");
    reveal_strlit("H");
    reveal_strlit("L");
    if b == 0x78 {
        reveal_strlit("BIT 7, B");
        assert("BIT 7, B"@ =~= "BIT "@ + digit(7) + ", "@ + "B"@);
    } else if b == 0x79 {
        reveal_strlit("BIT 7, C");
        assert("BIT 7, C"@ =~= "BIT "@ + digit(7) + ", "@ + "C"@);
    } else if b == 0x7A {
        reveal_strlit("BIT 7, D");
        assert("BIT 7, D"@ =~= "BIT "@ + digit(7) + ", "@ + "D"@);
    } else if b == 0x7B {
        reveal_strlit("BIT 7, E");
        assert("BIT 7, E"@ =~= "BIT "@ + digit(7) + ", "@ + "E"@);
    } else if b == 0x7C {
        reveal_strlit("BIT 7, H");
        assert("BIT 7, H"@ =~= "BIT "@ + digit(7) + ", "@ + "H"@);
    } else if b == 0x7D {
        reveal_strlit("BIT 7, L");
        assert("BIT 7, L"@ =~= "BIT "@ + digit(7) + ", "@ + "L"@);
    } else if b == 0x7E {
        reveal_strlit("BIT 7, (HL)");
        assert("BIT 7, (HL)"@ =~= "BIT "@ + digit(7) + ", "@ + "(HL)"@);
    } else if b == 0x7F {
        reveal_strlit("BIT 7, A");
        assert("BIT 7, A"@ =~= "BIT "@ + digit(7) + ", "@ + "A"@);
    }
}

proof fn lemma_cb_row_16(b: u8)
    requires
        0x80 <= b < 0x88,
    ensures
        cb_entry_named(b),
{
    reveal_strlit("(HL)");
    reveal_strlit(", ");
    reveal_strlit("A");
    reveal_strlit("B");
    reveal_strlit("C");
    reveal_strlit("D");
    reveal_strlit("E");
    reveal_strlit("H");
    reveal_strlit("L");
    reveal_strlit("RES ");
    if b == 0x80 {
        reveal_strlit("RES 0, B");
        assert("RES 0, B"@ =~= "RES "@ + digit(0) + ", "@ + "B"@);
    } else if b == 0x81 {
        reveal_strlit("RES 0, C");
        assert("RES 0, C"@ =~= "RES "@ + digit(0) + ", "@ + "C"@);
    } else if b == 0x82 {
        reveal_strlit("RES 0, D");
        assert("RES 0, D"@ =~= "RES "@ + digit(0) + ", "@ + "D"@);
    } else if b == 0x83 {
        reveal_strlit("RES 0, E");
        assert("RES 0, E"@ =~= "RES "@ + digit(0) + ", "@ + "E"@);
    } else if b == 0x84 {
        reveal_strlit("RES 0, H");
        assert("RES 0, H"@ =~= "RES "@ + digit(0) + ", "@ + "H"@);
    } else if b == 0x85 {
        reveal_strlit("RES 0, L");
        assert("RES 0, L"@ =~= "RES "@ + digit(0) + ", "@ + "L"@);
    } else if b == 0x86 {
        reveal_strlit("RES 0, (HL)");
        assert("RES 0, (HL)"@ =~= "RES "@ + digit(0) + ", "@ + "(HL)"@);
    } else if b == 0x87 {
        reveal_strlit("RES 0, A");
        assert("RES 0, A"@ =~= "RES "@ + digit(0) + ", "@ + "A"@);
    }
}

proof fn lemma_cb_row_17(b: u8)
    requires
        0x88 <= b < 0x90,
    ensures
        cb_entry_named(b),
{
    reveal_strlit("(HL)");
    reveal_strlit(", ");
    reveal_strlit("A");
    reveal_strlit("B");
    reveal_strlit("C");
    reveal_strlit("D");
    reveal_strlit("E");
    reveal_strlit("H");
    reveal_strlit("L");
    reveal_strlit("RES ");
    if b == 0x88 {
        reveal_strlit("RES 1, B");
        assert("RES 1, B"@ =~= "RES "@ + digit(1) + ", "@ + "B"@);
    } else if b == 0x89 {
        reveal_strlit("RES 1, C");
        assert("RES 1, C"@ =~= "RES "@ + digit(1) + ", "@ + "C"@);
    } else if b == 0x8A {
        reveal_strlit("RES 1, D");
        assert("RES 1, D"@ =~= "RES "@ + digit(1) + ", "@ + "D"@);
    } else if b == 0x8B {
        reveal_strlit("RES 1, E");
        assert("RES 1, E"@ =~= "RES "@ + digit(1) + ", "@ + "E"@);
    } else if b == 0x8C {
        reveal_strlit("RES 1, H");
        assert("RES 1, H"@ =~= "RES "@ + digit(1) + ", "@ + "H"@);
    } else if b == 0x8D {
        reveal_strlit("RES 1, L");
        assert("RES 1, L"@ =~= "RES "@ + digit(1) + ", "@ + "L"@);
    } else if b == 0x8E {
        reveal_strlit("RES 1, (HL)");
        assert("RES 1, (HL)"@ =~= "RES "@ + digit(1) + ", "@ + "(HL)"@);
    } else if b == 0x8F {
        reveal_strlit("RES 1, A");
        assert("RES 1, A"@ =~= "RES "@ + digit(1) + ", "@ + "A"@);
    }
}

proof fn lemma_cb_row_18(b: u8)
    requires
        0x90 <= b < 0x98,
    ensures
        cb_entry_named(b),
{
    reveal_strlit("(HL)");
    reveal_strlit(", ");
    reveal_strlit("A");
    reveal_strlit("B");
    reveal_strlit("C");
    reveal_strlit("D");
    reveal_strlit("E");
    reveal_strlit("H");
    reveal_strlit("L");
    reveal_strlit("RES ");
    if b == 0x90 {
        reveal_strlit("RES 2, B");
        assert("RES 2, B"@ =~= "RES "@ + digit(2) + ", "@ + "B"@);
    } else if b == 0x91 {
        reveal_strlit("RES 2, C");
        assert("RES 2, C"@ =~= "RES "@ + digit(2) + ", "@ + "C"@);
    } else if b == 0x92 {
        reveal_strlit("RES 2, D");
        assert("RES 2, D"@ =~= "RES "@ + digit(2) + ", "@ + "D"@);
    } else if b == 0x93 {
        reveal_strlit("RES 2, E");
        assert("RES 2, E"@ =~= "RES "@ + digit(2) + ", "@ + "E"@);
    } else if b == 0x94 {
        reveal_strlit("RES 2, H");
        assert("RES 2, H"@ =~= "RES "@ + digit(2) + ", "@ + "H"@);
    } else if b == 0x95 {
        reveal_strlit("RES 2, L");
        assert("RES 2, L"@ =~= "RES "@ + digit(2) + ", "@ + "L"@);
    } else if b == 0x96 {
        reveal_strlit("RES 2, (HL)");
        assert("RES 2, (HL)"@ =~= "RES "@ + digit(2) + ", "@ + "(HL)"@);
    } else if b == 0x97 {
        reveal_strlit("RES 2, A");
        assert("RES 2, A"@ =~= "RES "@ + digit(2) + ", "@ + "A"@);
    }
}

proof fn lemma_cb_row_19(b: u8)
    requires
        0x98 <= b < 0xa0,
    ensures
        cb_entry_named(b),
{
    reveal_strlit("(HL)");
    reveal_strlit(", ");
    reveal_strlit("A");
    reveal_strlit("B");
    reveal_strlit("C");
    reveal_strlit("D");
    reveal_strlit("E");
    reveal_strlit("H");
    reveal_strlit("L");
    reveal_strlit("RES ");
    if b == 0x98 {
        reveal_strlit("RES 3, B");
        assert("RES 3, B"@ =~= "RES "@ + digit(3) + ", "@ + "B"@);
    } else if b == 0x99 {
        reveal_strlit("RES 3, C");
        assert("RES 3, C"@ =~= "RES "@ + digit(3) + ", "@ + "C"@);
    } else if b == 0x9A {
        reveal_strlit("RES 3, D");
        assert("RES 3, D"@ =~= "RES "@ + digit(3) + ", "@ + "D"@);
    } else if b == 0x9B {
        reveal_strlit("RES 3, E");
        assert("RES 3, E"@ =~= "RES "@ + digit(3) + ", "@ + "E"@);
    } else if b == 0x9C {
        reveal_strlit("RES 3, H");
        assert("RES 3, H"@ =~= "RES "@ + digit(3) + ", "@ + "H"@);
    } else if b == 0x9D {
        reveal_strlit("RES 3, L");
        assert("RES 3, L"@ =~= "RES "@ + digit(3) + ", "@ + "L"@);
    } else if b == 0x9E {
        reveal_strlit("RES 3, (HL)");
        assert("RES 3, (HL)"@ =~= "RES "@ + digit(3) + ", "@ + "(HL)"@);
    } else if b == 0x9F {
        reveal_strlit("RES 3, A");
        assert("RES 3, A"@ =~= "RES "@ + digit(3) + ", "@ + "A"@);
    }
}

proof fn lemma_cb_row_20(b: u8)
    requires
        0xa0 <= b < 0xa8,
    ensures
        cb_entry_named(b),
{
    reveal_strlit("(HL)");
    reveal_strlit(", ");
    reveal_strlit("A");
    reveal_strlit("B");
    reveal_strlit("C");
    reveal_strlit("D");
    reveal_strlit("E");
    reveal_strlit("H");
    reveal_strlit("L");
    reveal_strlit("RES ");
    if b == 0xA0 {
        reveal_strlit("RES 4, B");
        assert("RES 4, B"@ =~= "RES "@ + digit(4) + ", "@ + "B"@);
    } else if b == 0xA1 {
        reveal_strlit("RES 4, C");
        assert("RES 4, C"@ =~= "RES "@ + digit(4) + ", "@ + "C"@);
    } else if b == 0xA2 {
        reveal_strlit("RES 4, D");
        assert("RES 4, D"@ =~= "RES "@ + digit(4) + ", "@ + "D"@);
    } else if b == 0xA3 {
        reveal_strlit("RES 4, E");
        assert("RES 4, E"@ =~= "RES "@ + digit(4) + ", "@ + "E"@);
    } else if b == 0xA4 {
        reveal_strlit("RES 4, H");
        assert("RES 4, H"@ =~= "RES "@ + digit(4) + ", "@ + "H"@);
    } else if b == 0xA5 {
        reveal_strlit("RES 4, L");
        assert("RES 4, L"@ =~= "RES "@ + digit(4) + ", "@ + "L"@);
    } else if b == 0xA6 {
        reveal_strlit("RES 4, (HL)");
        assert("RES 4, (HL)"@ =~= "RES "@ + digit(4) + ", "@ + "(HL)"@);
    } else if b == 0xA7 {
        reveal_strlit("RES 4, A");
        assert("RES 4, A"@ =~= "RES "@ + digit(4) + ", "@ + "A"@);
    }
}

proof fn lemma_cb_row_21(b: u8)
    requires
        0xa8 <= b < 0xb0,
    ensures
        cb_entry_named(b),
{
    reveal_strlit("(HL)");
    reveal_strlit(", ");
    reveal_strlit("A");
    reveal_strlit("B");
    reveal_strlit("C");
    reveal_strlit("D");
    reveal_strlit("E");
    reveal_strlit("H");
    reveal_strlit("L");
    reveal_strlit("RES ");
    if b == 0xA8 {
        reveal_strlit("RES 5, B");
        assert("RES 5, B"@ =~= "RES "@ + digit(5) + ", "@ + "B"@);
    } else if b == 0xA9 {
        reveal_strlit("RES 5, C");
        assert("RES 5, C"@ =~= "RES "@ + digit(5) + ", "@ + "C"@);
    } else if b == 0xAA {
        reveal_strlit("RES 5, D");
        assert("RES 5, D"@ =~= "RES "@ + digit(5) + ", "@ + "D"@);
    } else if b == 0xAB {
        reveal_strlit("RES 5, E");
        assert("RES 5, E"@ =~= "RES "@ + digit(5) + ", "@ + "E"@);
    } else if b == 0xAC {
        reveal_strlit("RES 5, H");
        assert("RES 5, H"@ =~= "RES "@ + digit(5) + ", "@ + "H"@);
    } else if b == 0xAD {
        reveal_strlit("RES 5, L");
        assert("RES 5, L"@ =~= "RES "@ + digit(5) + ", "@ + "L"@);
    } else if b == 0xAE {
        reveal_strlit("RES 5, (HL)");
        assert("RES 5, (HL)"@ =~= "RES "@ + digit(5) + ", "@ + "(HL)"@);
    } else if b == 0xAF {
        reveal_strlit("RES 5, A");
        assert("RES 5, A"@ =~= "RES "@ + digit(5) + ", "@ + "A"@);
    }
}

proof fn lemma_cb_row_22(b: u8)
    requires
        0xb0 <= b < 0xb8,
    ensures
        cb_entry_named(b),
{
    reveal_strlit("(HL)");
    reveal_strlit(", ");
    reveal_strlit("A");
    reveal_strlit("B");
    reveal_strlit("C");
    reveal_strlit("D");
    reveal_strlit("E");
    reveal_strlit("H");
    reveal_strlit("L");
    reveal_strlit("RES ");
    if b == 0xB0 {
        reveal_strlit("RES 6, B");
        assert("RES 6, B"@ =~= "RES "@ + digit(6) + ", "@ + "B"@);
    } else if b == 0xB1 {
        reveal_strlit("RES 6, C");
        assert("RES 6, C"@ =~= "RES "@ + digit(6) + ", "@ + "C"@);
    } else if b == 0xB2 {
        reveal_strlit("RES 6, D");
        assert("RES 6, D"@ =~= "RES "@ + digit(6) + ", "@ + "D"@);
    } else if b == 0xB3 {
        reveal_strlit("RES 6, E");
        assert("RES 6, E"@ =~= "RES "@ + digit(6) + ", "@ + "E"@);
    } else if b == 0xB4 {
        reveal_strlit("RES 6, H");
        assert("RES 6, H"@ =~= "RES "@ + digit(6) + ", "@ + "H"@);
    } else if b == 0xB5 {
        reveal_strlit("RES 6, L");
        assert("RES 6, L"@ =~= "RES "@ + digit(6) + ", "@ + "L"@);
    } else if b == 0xB6 {
        reveal_strlit("RES 6, (HL)");
        assert("RES 6, (HL)"@ =~= "RES "@ + digit(6) + ", "@ + "(HL)"@);
    } else if b == 0xB7 {
        reveal_strlit("RES 6, A");
        assert("RES 6, A"@ =~= "RES "@ + digit(6) + ", "@ + "A"@);
    }
}

proof fn lemma_cb_row_23(b: u8)
    requires
        0xb8 <= b < 0xc0,
    ensures
        cb_entry_named(b),
{
    reveal_strlit("(HL)");
    reveal_strlit(", ");
    reveal_strlit("A");
    reveal_strlit("B");
    reveal_strlit("C");
    reveal_strlit("D");
    reveal_strlit("E");
    reveal_strlit("H");
    reveal_strlit("L");
    reveal_strlit("RES ");
    if b == 0xB8 {
        reveal_strlit("RES 7, B");
        assert("RES 7, B"@ =~= "RES "@ + digit(7) + ", "@ + "B"@);
    } else if b == 0xB9 {
        reveal_strlit("RES 7, C");
        assert("RES 7, C"@ =~= "RES "@ + digit(7) + ", "@ + "C"@);
    } else if b == 0xBA {
        reveal_strlit("RES 7, D");
        assert("RES 7, D"@ =~= "RES "@ + digit(7) + ", "@ + "D"@);
    } else if b == 0xBB {
        reveal_strlit("RES 7, E");
        assert("RES 7, E"@ =~= "RES "@ + digit(7) + ", "@ + "E"@);
    } else if b == 0xBC {
        reveal_strlit("RES 7, H");
        assert("RES 7, H"@ =~= "RES "@ + digit(7) + ", "@ + "H"@);
    } else if b == 0xBD {
        reveal_strlit("RES 7, L");
        assert("RES 7, L"@ =~= "RES "@ + digit(7) + ", "@ + "L"@);
    } else if b == 0xBE {
        reveal_strlit("RES 7, (HL)");
        assert("RES 7, (HL)"@ =~= "RES "@ + digit(7) + ", "@ + "(HL)"@);
    } else if b == 0xBF {
        reveal_strlit("RES 7, A");
        assert("RES 7, A"@ =~= "RES "@ + digit(7) + ", "@ + "A"@);
    }
}

proof fn lemma_cb_row_24(b: u8)
    requires
        0xc0 <= b < 0xc8,
    ensures
        cb_entry_named(b),
{
    reveal_strlit("(HL)");
    reveal_strlit(", ");
    reveal_strlit("A");
    reveal_strlit("B");
    reveal_strlit("C");
    reveal_strlit("D");
    reveal_strlit("E");
    reveal_strlit("H");
    reveal_strlit("L");
    reveal_strlit("SET ");
    if b == 0xC0 {
        reveal_strlit("SET 0, B");
        assert("SET 0, B"@ =~= "SET "@ + digit(0) + ", "@ + "B"@);
    } else if b == 0xC1 {
        reveal_strlit("SET 0, C");
        assert("SET 0, C"@ =~= "SET "@ + digit(0) + ", "@ + "C"@);
    } else if b == 0xC2 {
        reveal_strlit("SET 0, D");
        assert("SET 0, D"@ =~= "SET "@ + digit(0) + ", "@ + "D"@);
    } else if b == 0xC3 {
        reveal_strlit("SET 0, E");
        assert("SET 0, E"@ =~= "SET "@ + digit(0) + ", "@ + "E"@);
    } else if b == 0xC4 {
        reveal_strlit("SET 0, H");
        assert("SET 0, H"@ =~= "SET "@ + digit(0) + ", "@ + "H"@);
    } else if b == 0xC5 {
        reveal_strlit("SET 0, L");
        assert("SET 0, L"@ =~= "SET "@ + digit(0) + ", "@ + "L"@);
    } else if b == 0xC6 {
        reveal_strlit("SET 0, (HL)");
        assert("SET 0, (HL)"@ =~= "SET "@ + digit(0) + ", "@ + "(HL)"@);
    } else if b == 0xC7 {
        reveal_strlit("SET 0, A");
        assert("SET 0, A"@ =~= "SET "@ + digit(0) + ", "@ + "A"@);
    }
}

proof fn lemma_cb_row_25(b: u8)
    requires
        0xc8 <= b < 0xd0,
    ensures
        cb_entry_named(b),
{
    reveal_strlit("(HL)");
    reveal_strlit(", ");
    reveal_strlit("A");
    reveal_strlit("B");
    reveal_strlit("C");
    reveal_strlit("D");
    reveal_strlit("E");
    reveal_strlit("H");
    reveal_strlit("L");
    reveal_strlit("SET ");
    if b == 0xC8 {
        reveal_strlit("SET 1, B");
        assert("SET 1, B"@ =~= "SET "@ + digit(1) + ", "@ + "B"@);
    } else if b == 0xC9 {
        reveal_strlit("SET 1, C");
        assert("SET 1, C"@ =~= "SET "@ + digit(1) + ", "@ + "C"@);
    } else if b == 0xCA {
        reveal_strlit("SET 1, D");
        assert("SET 1, D"@ =~= "SET "@ + digit(1) + ", "@ + "D"@);
    } else if b == 0xCB {
        reveal_strlit("SET 1, E");
        assert("SET 1, E"@ =~= "SET "@ + digit(1) + ", "@ + "E"@);
    } else if b == 0xCC {
        reveal_strlit("SET 1, H");
        assert("SET 1, H"@ =~= "SET "@ + digit(1) + ", "@ + "H"@);
    } else if b == 0xCD {
        reveal_strlit("SET 1, L");
        assert("SET 1, L"@ =~= "SET "@ + digit(1) + ", "@ + "L"@);
    } else if b == 0xCE {
        reveal_strlit("SET 1, (HL)");
        assert("SET 1, (HL)"@ =~= "SET "@ + digit(1) + ", "@ + "(HL)"@);
    } else if b == 0xCF {
        reveal_strlit("SET 1, A");
        assert("SET 1, A"@ =~= "SET "@ + digit(1) + ", "@ + "A"@);
    }
}

proof fn lemma_cb_row_26(b: u8)
    requires
        0xd0 <= b < 0xd8,
    ensures
        cb_entry_named(b),
{
    reveal_strlit("(HL)");
    reveal_strlit(", ");
    reveal_strlit("A");
    reveal_strlit("B");
    reveal_strlit("C");
    reveal_strlit("D");
    reveal_strlit("E");
    reveal_strlit("H");
    reveal_strlit("L");
    reveal_strlit("SET ");
    if b == 0xD0 {
        reveal_strlit("SET 2, B");
        assert("SET 2, B"@ =~= "SET "@ + digit(2) + ", "@ + "B"@);
    } else if b == 0xD1 {
        reveal_strlit("SET 2, C");
        assert("SET 2, C"@ =~= "SET "@ + digit(2) + ", "@ + "C"@);
    } else if b == 0xD2 {
        reveal_strlit("SET 2, D");
        assert("SET 2, D"@ =~= "SET "@ + digit(2) + ", "@ + "D"@);
    } else if b == 0xD3 {
        reveal_strlit("SET 2, E");
        assert("SET 2, E"@ =~= "SET "@ + digit(2) + ", "@ + "E"@);
    } else if b == 0xD4 {
        reveal_strlit("SET 2, H");
        assert("SET 2, H"@ =~= "SET "@ + digit(2) + ", "@ + "H"@);
    } else if b == 0xD5 {
        reveal_strlit("SET 2, L");
        assert("SET 2, L"@ =~= "SET "@ + digit(2) + ", "@ + "L"@);
    } else if b == 0xD6 {
        reveal_strlit("SET 2, (HL)");
        assert("SET 2, (HL)"@ =~= "SET "@ + digit(2) + ", "@ + "(HL)"@);
    } else if b == 0xD7 {
        reveal_strlit("SET 2, A");
        assert("SET 2, A"@ =~= "SET "@ + digit(2) + ", "@ + "A"@);
    }
}

proof fn lemma_cb_row_27(b: u8)
    requires
        0xd8 <= b < 0xe0,
    ensures
        cb_entry_named(b),
{
    reveal_strlit("(HL)");
    reveal_strlit(", ");
    reveal_strlit("A");
    reveal_strlit("B");
    reveal_strlit("C");
    reveal_strlit("D");
    reveal_strlit("E");
    reveal_strlit("H");
    reveal_strlit("L");
    reveal_strlit("SET ");
    if b == 0xD8 {
        reveal_strlit("SET 3, B");
        assert("SET 3, B"@ =~= "SET "@ + digit(3) + ", "@ + "B"@);
    } else if b == 0xD9 {
        reveal_strlit("SET 3, C");
        assert("SET 3, C"@ =~= "SET "@ + digit(3) + ", "@ + "C"@);
    } else if b == 0xDA {
        reveal_strlit("SET 3, D");
        assert("SET 3, D"@ =~= "SET "@ + digit(3) + ", "@ + "D"@);
    } else if b == 0xDB {
        reveal_strlit("SET 3, E");
        assert("SET 3, E"@ =~= "SET "@ + digit(3) + ", "@ + "E"@);
    } else if b == 0xDC {
        reveal_strlit("SET 3, H");
        assert("SET 3, H"@ =~= "SET "@ + digit(3) + ", "@ + "H"@);
    } else if b == 0xDD {
        reveal_strlit("SET 3, L");
        assert("SET 3, L"@ =~= "SET "@ + digit(3) + ", "@ + "L"@);
    } else if b == 0xDE {
        reveal_strlit("SET 3, (HL)");
        assert("SET 3, (HL)"@ =~= "SET "@ + digit(3) + ", "@ + "(HL)"@);
    } else if b == 0xDF {
        reveal_strlit("SET 3, A");
        assert("SET 3, A"@ =~= "SET "@ + digit(3) + ", "@ + "A"@);
    }
}

proof fn lemma_cb_row_28(b: u8)
    requires
        0xe0 <= b < 0xe8,
    ensures
        cb_entry_named(b),
{
    reveal_strlit("(HL)");
    reveal_strlit(", ");
    reveal_strlit("A");
    reveal_strlit("B");
    reveal_strlit("C");
    reveal_strlit("D");
    reveal_strlit("E");
    reveal_strlit("H");
    reveal_strlit("L");
    reveal_strlit("SET ");
    if b == 0xE0 {
        reveal_strlit("SET 4, B");
        assert("SET 4, B"@ =~= "SET "@ + digit(4) + ", "@ + "B"@);
    } else if b == 0xE1 {
        reveal_strlit("SET 4, C");
        assert("SET 4, C"@ =~= "SET "@ + digit(4) + ", "@ + "C"@);
    } else if b == 0xE2 {
        reveal_strlit("SET 4, D");
        assert("SET 4, D"@ =~= "SET "@ + digit(4) + ", "@ + "D"@);
    } else if b == 0xE3 {
        reveal_strlit("SET 4, E");
        assert("SET 4, E"@ =~= "SET "@ + digit(4) + ", "@ + "E"@);
    } else if b == 0xE4 {
        reveal_strlit("SET 4, H");
        assert("SET 4, H"@ =~= "SET "@ + digit(4) + ", "@ + "H"@);
    } else if b == 0xE5 {
        reveal_strlit("SET 4, L");
        assert("SET 4, L"@ =~= "SET "@ + digit(4) + ", "@ + "L"@);
    } else if b == 0xE6 {
        reveal_strlit("SET 4, (HL)");
        assert("SET 4, (HL)"@ =~= "SET "@ + digit(4) + ", "@ + "(HL)"@);
    } else if b == 0xE7 {
        reveal_strlit("SET 4, A");
        assert("SET 4, A"@ =~= "SET "@ + digit(4) + ", "@ + "A"@);
    }
}

proof fn lemma_cb_row_29(b: u8)
    requires
        0xe8 <= b < 0xf0,
    ensures
        cb_entry_named(b),
{
    reveal_strlit("(HL)");
    reveal_strlit(", ");
    reveal_strlit("A");
    reveal_strlit("B");
    reveal_strlit("C");
    reveal_strlit("D");
    reveal_strlit("E");
    reveal_strlit("H");
    reveal_strlit("L");
    reveal_strlit("SET ");
    if b == 0xE8 {
        reveal_strlit("SET 5, B");
        assert("SET 5, B"@ =~= "SET "@ + digit(5) + ", "@ + "B"@);
    } else if b == 0xE9 {
        reveal_strlit("SET 5, C");
        assert("SET 5, C"@ =~= "SET "@ + digit(5) + ", "@ + "C"@);
    } else if b == 0xEA {
        reveal_strlit("SET 5, D");
        assert("SET 5, D"@ =~= "SET "@ + digit(5) + ", "@ + "D"@);
    } else if b == 0xEB {
        reveal_strlit("SET 5, E");
        assert("SET 5, E"@ =~= "SET "@ + digit(5) + ", "@ + "E"@);
    } else if b == 0xEC {
        reveal_strlit("SET 5, H");
        assert("SET 5, H"@ =~= "SET "@ + digit(5) + ", "@ + "H"@);
    } else if b == 0xED {
        reveal_strlit("SET 5, L");
        assert("SET 5, L"@ =~= "SET "@ + digit(5) + ", "@ + "L"@);
    } else if b == 0xEE {
        reveal_strlit("SET 5, (HL)");
        assert("SET 5, (HL)"@ =~= "SET "@ + digit(5) + ", "@ + "(HL)"@);
    } else if b == 0xEF {
        reveal_strlit("SET 5, A");
        assert("SET 5, A"@ =~= "SET "@ + digit(5) + ", "@ + "A"@);
    }
}

proof fn lemma_cb_row_30(b: u8)
    requires
        0xf0 <= b < 0xf8,
    ensures
        cb_entry_named(b),
{
    reveal_strlit("(HL)");
    reveal_strlit(", ");
    reveal_strlit("A");
    reveal_strlit("B");
    reveal_strlit("C");
    reveal_strlit("D");
    reveal_strlit("E");
    reveal_strlit("H");
    reveal_strlit("L");
    reveal_strlit("SET ");
    if b == 0xF0 {
        reveal_strlit("SET 6, B");
        assert("SET 6, B"@ =~= "SET "@ + digit(6) + ", "@ + "B"@);
    } else if b == 0xF1 {
        reveal_strlit("SET 6, C");
        assert("SET 6, C"@ =~= "SET "@ + digit(6) + ", "@ + "C"@);
    } else if b == 0xF2 {
        reveal_strlit("SET 6, D");
        assert("SET 6, D"@ =~= "SET "@ + digit(6) + ", "@ + "D"@);
    } else if b == 0xF3 {
        reveal_strlit("SET 6, E");
        assert("SET 6, E"@ =~= "SET "@ + digit(6) + ", "@ + "E"@);
    } else if b == 0xF4 {
        reveal_strlit("SET 6, H");
        assert("SET 6, H"@ =~= "SET "@ + digit(6) + ", "@ + "H"@);
    } else if b == 0xF5 {
        reveal_strlit("SET 6, L");
        assert("SET 6, L"@ =~= "SET "@ + digit(6) + ", "@ + "L"@);
    } else if b == 0xF6 {
        reveal_strlit("SET 6, (HL)");
        assert("SET 6, (HL)"@ =~= "SET "@ + digit(6) + ", "@ + "(HL)"@);
    } else if b == 0xF7 {
        reveal_strlit("SET 6, A");
        assert("SET 6, A"@ =~= "SET "@ + digit(6) + ", "@ + "A"@);
    }
}

proof fn lemma_cb_row_31(b: u8)
    requires
        0xf8 <= b < 0x100,
    ensures
        cb_entry_named(b),
{
    reveal_strlit("(HL)");
    reveal_strlit(", ");
    reveal_strlit("A");
    reveal_strlit("B");
    reveal_strlit("C");
    reveal_strlit("D");
    reveal_strlit("E");
    reveal_strlit("H");
    reveal_strlit("L");
    reveal_strlit("SET ");
    if b == 0xF8 {
        reveal_strlit("SET 7, B");
        assert("SET 7, B"@ =~= "SET "@ + digit(7) + ", "@ + "B"@);
    } else if b == 0xF9 {
        reveal_strlit("SET 7, C");
        assert("SET 7, C"@ =~= "SET "@ + digit(7) + ", "@ + "C"@);
    } else if b == 0xFA {
        reveal_strlit("SET 7, D");
        assert("SET 7, D"@ =~= "SET "@ + digit(7) + ", "@ + "D"@);
    } else if b == 0xFB {
        reveal_strlit("SET 7, E");
        assert("SET 7, E"@ =~= "SET "@ + digit(7) + ", "@ + "E"@);
    } else if b == 0xFC {
        reveal_strlit("SET 7, H");
        assert("SET 7, H"@ =~= "SET "@ + digit(7) + ", "@ + "H"@);
    } else if b == 0xFD {
        reveal_strlit("SET 7, L");
        assert("SET 7, L"@ =~= "SET "@ + digit(7) + ", "@ + "L"@);
    } else if b == 0xFE {
        reveal_strlit("SET 7, (HL)");
        assert("SET 7, (HL)"@ =~= "SET "@ + digit(7) + ", "@ + "(HL)"@);
    } else if b == 0xFF {
        reveal_strlit("SET 7, A");
        assert("SET 7, A"@ =~= "SET "@ + digit(7) + ", "@ + "A"@);
    }
}

/// Every prefixed instruction is named by its encoding: the operation from
/// bits 3 to 7 (a shift or rotation, or BIT, RES, SET with the bit number)
/// and the operand from bits 0 to 2. Each is one byte after the prefix,
/// takes no operand, and takes 8 cycles, 16 with (HL), 12 for BIT with (HL).
pub proof fn lemma_cb_table(b: u8)
    ensures
        spec_cb_opcode(b).code == b,
        spec_cb_opcode(b).extended,
        spec_cb_opcode(b).length == 1,
        spec_cb_opcode(b).argument_type == ArgumentType::Implied,
        spec_cb_opcode(b).cycles == (if b % 8 != 6 {
            8u8
        } else if 0x40 <= b < 0x80 {
            12u8
        } else {
            16u8
        }),
        spec_cb_opcode(b).mnemonic@ == cb_text(b),
{
    if b < 0x08 {
        lemma_cb_row_00(b);
    } else if b < 0x10 {
        lemma_cb_row_01(b);
    } else if b < 0x18 {
        lemma_cb_row_02(b);
    } else if b < 0x20 {
        lemma_cb_row_03(b);
    } else if b < 0x28 {
        lemma_cb_row_04(b);
    } else if b < 0x30 {
        lemma_cb_row_05(b);
    } else if b < 0x38 {
        lemma_cb_row_06(b);
    } else if b < 0x40 {
        lemma_cb_row_07(b);
    } else if b < 0x48 {
        lemma_cb_row_08(b);
    } else if b < 0x50 {
        lemma_cb_row_09(b);
    } else if b < 0x58 {
        lemma_cb_row_10(b);
    } else if b < 0x60 {
        lemma_cb_row_11(b);
    } else if b < 0x68 {
        lemma_cb_row_12(b);
    } else if b < 0x70 {
        lemma_cb_row_13(b);
    } else if b < 0x78 {
        lemma_cb_row_14(b);
    } else if b < 0x80 {
        lemma_cb_row_15(b);
    } else if b < 0x88 {
        lemma_cb_row_16(b);
    } else if b < 0x90 {
        lemma_cb_row_17(b);
    } else if b < 0x98 {
        lemma_cb_row_18(b);
    } else if b < 0xa0 {
        lemma_cb_row_19(b);
    } else if b < 0xa8 {
        lemma_cb_row_20(b);
    } else if b < 0xb0 {
        lemma_cb_row_21(b);
    } else if b < 0xb8 {
        lemma_cb_row_22(b);
    } else if b < 0xc0 {
        lemma_cb_row_23(b);
    } else if b < 0xc8 {
        lemma_cb_row_24(b);
    } else if b < 0xd0 {
        lemma_cb_row_25(b);
    } else if b < 0xd8 {
        lemma_cb_row_26(b);
    } else if b < 0xe0 {
        lemma_cb_row_27(b);
    } else if b < 0xe8 {
        lemma_cb_row_28(b);
    } else if b < 0xf0 {
        lemma_cb_row_29(b);
    } else if b < 0xf8 {
        lemma_cb_row_30(b);
    } else {
        lemma_cb_row_31(b);
    }
}

/// The register pair of bits 4 and 5 of a 16-bit load, increment, decrement or addition.
pub open spec fn pair_name(k: int) -> Seq<char> {
    if k == 0 {
        "BC"@
    } else if k == 1 {
        "DE"@
    } else if k == 2 {
        "HL"@
    } else {
        "SP"@
    }
}

/// The register pair of bits 4 and 5 of PUSH and POP.
pub open spec fn stack_pair_name(k: int) -> Seq<char> {
    if k == 0 {
        "BC"@
    } else if k == 1 {
        "DE"@
    } else if k == 2 {
        "HL"@
    } else {
        "AF"@
    }
}

/// The condition of bits 3 and 4 of a conditional jump, call or return.
pub open spec fn condition_name(k: int) -> Seq<char> {
    if k == 0 {
        "NZ"@
    } else if k == 1 {
        "Z"@
    } else if k == 2 {
        "NC"@
    } else {
        "C"@
    }
}

/// The text of each instruction without the prefix that the encoding names:
/// the register blocks 0x40-0xBF (loads, HALT, arithmetic on A), the 8-bit
/// increments, decrements and immediate loads, the 16-bit loads, increments,
/// decrements and additions to HL, the conditional relative jumps, returns,
/// jumps and calls, PUSH and POP, the arithmetic with an immediate operand and
/// RST with its target. The others have `None`.
pub open spec fn encoded_text(b: u8) -> Option<Seq<char>> {
    let x = (b % 8) as int;
    let y = ((b / 8) % 8) as int;
    let p = ((b / 16) % 4) as int;
    if 0x40 <= b < 0xC0 {
        if b == 0x76 {
            Some("HALT"@)
        } else if b < 0x80 {
            Some("LD "@ + operand_name(y) + ", "@ + operand_name(x))
        } else {
            Some(alu_name(y) + operand_name(x))
        }
    } else if b < 0x40 {
        if x == 4 {
            Some("INC "@ + operand_name(y))
        } else if x == 5 {
            Some("DEC "@ + operand_name(y))
        } else if x == 6 {
            Some("LD "@ + operand_name(y) + ", {imm8}"@)
        } else if b % 16 == 1 {
            Some("LD "@ + pair_name(p) + ", {imm16}"@)
        } else if b % 16 == 3 {
            Some("INC "@ + pair_name(p))
        } else if b % 16 == 0x0B {
            Some("DEC "@ + pair_name(p))
        } else if b % 16 == 9 {
            Some("ADD HL, "@ + pair_name(p))
        } else if b >= 0x20 && x == 0 {
            Some("JR "@ + condition_name(y - 4) + ", {imm8}"@)
        } else {
            None
        }
    } else if x == 0 && y < 4 {
        Some("RET "@ + condition_name(y))
    } else if x == 2 && y < 4 {
        Some("JP "@ + condition_name(y) + ", {imm16}"@)
    } else if x == 4 && y < 4 {
        Some("CALL "@ + condition_name(y) + ", {imm16}"@)
    } else if b % 16 == 1 {
        Some("POP "@ + stack_pair_name(p))
    } else if b % 16 == 5 {
        Some("PUSH "@ + stack_pair_name(p))
    } else if x == 6 {
        Some(alu_name(y) + "{imm8}"@)
    } else if x == 7 {
        Some("RST $"@ + digit(y / 2) + digit((y % 2) * 8))
    } else {
        None
    }
}

/// What `lemma_base_table` states of instruction `b`.
spec fn base_entry_named(b: u8) -> bool {
    &&& spec_base_opcode(b) matches Some(op) ==> op.code == b && !op.extended
    &&& spec_base_opcode(b) matches Some(op) ==> (b != 0x10 ==> op.length == 1 + match op.argument_type {
        ArgumentType::Imm8 => 1u16,
        ArgumentType::Imm16 => 2u16,
        _ => 0u16,
    })
    &&& encoded_text(b) matches Some(t) ==> spec_base_opcode(b) is Some && spec_base_opcode(b)->0.mnemonic@
        == t
    &&& 0x40 <= b < 0xC0 ==> spec_base_opcode(b)->0.argument_type == ArgumentType::Implied
    &&& (0x40 <= b < 0xC0 && b != 0x76) ==> spec_base_opcode(b)->0.cycles == (if b % 8 == 6 || (b < 0x80
        && (b - 0x40) / 8 == 6) {
        8u8
    } else {
        4u8
    })
}

proof fn lemma_base_row_00(b: u8)
    requires
        0x00 <= b < 0x08,
    ensures
        base_entry_named(b),
{
    reveal_strlit(", {imm16}");
    reveal_strlit(", {imm8}");
    reveal_strlit("B");
    reveal_strlit("BC");
    reveal_strlit("DEC ");
    reveal_strlit("INC ");
    reveal_strlit("LD ");
    if b == 0x01 {
        reveal_strlit("LD BC, {imm16}");
        assert("LD BC, {imm16}"@ =~= "LD "@ + "BC"@ + ", {imm16}"@);
    } else if b == 0x03 {
        reveal_strlit("INC BC");
        assert("INC BC"@ =~= "INC "@ + "BC"@);
    } else if b == 0x04 {
        reveal_strlit("INC B");
        assert("INC B"@ =~= "INC "@ + "B"@);
    } else if b == 0x05 {
        reveal_strlit("DEC B");
        assert("DEC B"@ =~= "DEC "@ + "B"@);
    } else if b == 0x06 {
        reveal_strlit("LD B, {imm8}");
        assert("LD B, {imm8}"@ =~= "LD "@ + "B"@ + ", {imm8}"@);
    }
}

proof fn lemma_base_row_01(b: u8)
    requires
        0x08 <= b < 0x10,
    ensures
        base_entry_named(b),
{
    reveal_strlit(", {imm8}");
    reveal_strlit("ADD HL, ");
    reveal_strlit("BC");
    reveal_strlit("C");
    reveal_strlit("DEC ");
    reveal_strlit("INC ");
    reveal_strlit("LD ");
    if b == 0x09 {
        reveal_strlit("ADD HL, BC");
        assert("ADD HL, BC"@ =~= "ADD HL, "@ + "BC"@);
    } else if b == 0x0b {
        reveal_strlit("DEC BC");
        assert("DEC BC"@ =~= "DEC "@ + "BC"@);
    } else if b == 0x0c {
        reveal_strlit("INC C");
        assert("INC C"@ =~= "INC "@ + "C"@);
    } else if b == 0x0d {
        reveal_strlit("DEC C");
        assert("DEC C"@ =~= "DEC "@ + "C"@);
    } else if b == 0x0e {
        reveal_strlit("LD C, {imm8}");
        assert("LD C, {imm8}"@ =~= "LD "@ + "C"@ + ", {imm8}"@);
    }
}

proof fn lemma_base_row_02(b: u8)
    requires
        0x10 <= b < 0x18,
    ensures
        base_entry_named(b),
{
    reveal_strlit(", {imm16}");
    reveal_strlit(", {imm8}");
    reveal_strlit("D");
    reveal_strlit("DE");
    reveal_strlit("DEC ");
    reveal_strlit("INC ");
    reveal_strlit("LD ");
    if b == 0x11 {
        reveal_strlit("LD DE, {imm16}");
        assert("LD DE, {imm16}"@ =~= "LD "@ + "DE"@ + ", {imm16}"@);
    } else if b == 0x13 {
        reveal_strlit("INC DE");
        assert("INC DE"@ =~= "INC "@ + "DE"@);
    } else if b == 0x14 {
        reveal_strlit("INC D");
        assert("INC D"@ =~= "INC "@ + "D"@);
    } else if b == 0x15 {
        reveal_strlit("DEC D");
        assert("DEC D"@ =~= "DEC "@ + "D"@);
    } else if b == 0x16 {
        reveal_strlit("LD D, {imm8}");
        assert("LD D, {imm8}"@ =~= "LD "@ + "D"@ + ", {imm8}"@);
    }
}

proof fn lemma_base_row_03(b: u8)
    requires
        0x18 <= b < 0x20,
    ensures
        base_entry_named(b),
{
    reveal_strlit(", {imm8}");
    reveal_strlit("ADD HL, ");
    reveal_strlit("DE");
    reveal_strlit("DEC ");
    reveal_strlit("E");
    reveal_strlit("INC ");
    reveal_strlit("LD ");
    if b == 0x19 {
        reveal_strlit("ADD HL, DE");
        assert("ADD HL, DE"@ =~= "ADD HL, "@ + "DE"@);
    } else if b == 0x1b {
        reveal_strlit("DEC DE");
        assert("DEC DE"@ =~= "DEC "@ + "DE"@);
    } else if b == 0x1c {
        reveal_strlit("INC E");
        assert("INC E"@ =~= "INC "@ + "E"@);
    } else if b == 0x1d {
        reveal_strlit("DEC E");
        assert("DEC E"@ =~= "DEC "@ + "E"@);
    } else if b == 0x1e {
        reveal_strlit("LD E, {imm8}");
        assert("LD E, {imm8}"@ =~= "LD "@ + "E"@ + ", {imm8}"@);
    }
}

proof fn lemma_base_row_04(b: u8)
    requires
        0x20 <= b < 0x28,
    ensures
        base_entry_named(b),
{
    reveal_strlit(", {imm16}");
    reveal_strlit(", {imm8}");
    reveal_strlit("DEC ");
    reveal_strlit("H");
    reveal_strlit("HL");
    reveal_strlit("INC ");
    reveal_strlit("JR ");
    reveal_strlit("LD ");
    reveal_strlit("NZ");
    if b == 0x20 {
        reveal_strlit("JR NZ, {imm8}");
        assert("JR NZ, {imm8}"@ =~= "JR "@ + "NZ"@ + ", {imm8}"@);
    } else if b == 0x21 {
        reveal_strlit("LD HL, {imm16}");
        assert("LD HL, {imm16}"@ =~= "LD "@ + "HL"@ + ", {imm16}"@);
    } else if b == 0x23 {
        reveal_strlit("INC HL");
        assert("INC HL"@ =~= "INC "@ + "HL"@);
    } else if b == 0x24 {
        reveal_strlit("INC H");
        assert("INC H"@ =~= "INC "@ + "H"@);
    } else if b == 0x25 {
        reveal_strlit("DEC H");
        assert("DEC H"@ =~= "DEC "@ + "H"@);
    } else if b == 0x26 {
        reveal_strlit("LD H, {imm8}");
        assert("LD H, {imm8}"@ =~= "LD "@ + "H"@ + ", {imm8}"@);
    }
}

proof fn lemma_base_row_05(b: u8)
    requires
        0x28 <= b < 0x30,
    ensures
        base_entry_named(b),
{
    reveal_strlit(", {imm8}");
    reveal_strlit("ADD HL, ");
    reveal_strlit("DEC ");
    reveal_strlit("HL");
    reveal_strlit("INC ");
    reveal_strlit("JR ");
    reveal_strlit("L");
    reveal_strlit("LD ");
    reveal_strlit("Z");
    if b == 0x28 {
        reveal_strlit("JR Z, {imm8}");
        assert("JR Z, {imm8}"@ =~= "JR "@ + "Z"@ + ", {imm8}"@);
    } else if b == 0x29 {
        reveal_strlit("ADD HL, HL");
        assert("ADD HL, HL"@ =~= "ADD HL, "@ + "HL"@);
    } else if b == 0x2b {
        reveal_strlit("DEC HL");
        assert("DEC HL"@ =~= "DEC "@ + "HL"@);
    } else if b == 0x2c {
        reveal_strlit("INC L");
        assert("INC L"@ =~= "INC "@ + "L"@);
    } else if b == 0x2d {
        reveal_strlit("DEC L");
        assert("DEC L"@ =~= "DEC "@ + "L"@);
    } else if b == 0x2e {
        reveal_strlit("LD L, {imm8}");
        assert("LD L, {imm8}"@ =~= "LD "@ + "L"@ + ", {imm8}"@);
    }
}

proof fn lemma_base_row_06(b: u8)
    requires
        0x30 <= b < 0x38,
    ensures
        base_entry_named(b),
{
    reveal_strlit("(HL)");
    reveal_strlit(", {imm16}");
    reveal_strlit(", {imm8}");
    reveal_strlit("DEC ");
    reveal_strlit("INC ");
    reveal_strlit("JR ");
    reveal_strlit("LD ");
    reveal_strlit("NC");
    reveal_strlit("SP");
    if b == 0x30 {
        reveal_strlit("JR NC, {imm8}");
        assert("JR NC, {imm8}"@ =~= "JR "@ + "NC"@ + ", {imm8}"@);
    } else if b == 0x31 {
        reveal_strlit("LD SP, {imm16}");
        assert("LD SP, {imm16}"@ =~= "LD "@ + "SP"@ + ", {imm16}"@);
    } else if b == 0x33 {
        reveal_strlit("INC SP");
        assert("INC SP"@ =~= "INC "@ + "SP"@);
    } else if b == 0x34 {
        reveal_strlit("INC (HL)");
        assert("INC (HL)"@ =~= "INC "@ + "(HL)"@);
    } else if b == 0x35 {
        reveal_strlit("DEC (HL)");
        assert("DEC (HL)"@ =~= "DEC "@ + "(HL)"@);
    } else if b == 0x36 {
        reveal_strlit("LD (HL), {imm8}");
        assert("LD (HL), {imm8}"@ =~= "LD "@ + "(HL)"@ + ", {imm8}"@);
    }
}

proof fn lemma_base_row_07(b: u8)
    requires
        0x38 <= b < 0x40,
    ensures
        base_entry_named(b),
{
    reveal_strlit(", {imm8}");
    reveal_strlit("A");
    reveal_strlit("ADD HL, ");
    reveal_strlit("C");
    reveal_strlit("DEC ");
    reveal_strlit("INC ");
    reveal_strlit("JR ");
    reveal_strlit("LD ");
    reveal_strlit("SP");
    if b == 0x38 {
        reveal_strlit("JR C, {imm8}");
        assert("JR C, {imm8}"@ =~= "JR "@ + "C"@ + ", {imm8}"@);
    } else if b == 0x39 {
        reveal_strlit("ADD HL, SP");
        assert("ADD HL, SP"@ =~= "ADD HL, "@ + "SP"@);
    } else if b == 0x3b {
        reveal_strlit("DEC SP");
        assert("DEC SP"@ =~= "DEC "@ + "SP"@);
    } else if b == 0x3c {
        reveal_strlit("INC A");
        assert("INC A"@ =~= "INC "@ + "A"@);
    } else if b == 0x3d {
        reveal_strlit("DEC A");
        assert("DEC A"@ =~= "DEC "@ + "A"@);
    } else if b == 0x3e {
        reveal_strlit("LD A, {imm8}");
        assert("LD A, {imm8}"@ =~= "LD "@ + "A"@ + ", {imm8}"@);
    }
}

proof fn lemma_base_row_08(b: u8)
    requires
        0x40 <= b < 0x48,
    ensures
        base_entry_named(b),
{
    reveal_strlit("(HL)");
    reveal_strlit(", ");
    reveal_strlit("A");
    reveal_strlit("B");
    reveal_strlit("C");
    reveal_strlit("D");
    reveal_strlit("E");
    reveal_strlit("H");
    reveal_strlit("L");
    reveal_strlit("LD ");
    if b == 0x40 {
        reveal_strlit("LD B, B");
        assert("LD B, B"@ =~= "LD "@ + "B"@ + ", "@ + "B"@);
    } else if b == 0x41 {
        reveal_strlit("LD B, C");
        assert("LD B, C"@ =~= "LD "@ + "B"@ + ", "@ + "C"@);
    } else if b == 0x42 {
        reveal_strlit("LD B, D");
        assert("LD B, D"@ =~= "LD "@ + "B"@ + ", "@ + "D"@);
    } else if b == 0x43 {
        reveal_strlit("LD B, E");
        assert("LD B, E"@ =~= "LD "@ + "B"@ + ", "@ + "E"@);
    } else if b == 0x44 {
        reveal_strlit("LD B, H");
        assert("LD B, H"@ =~= "LD "@ + "B"@ + ", "@ + "H"@);
    } else if b == 0x45 {
        reveal_strlit("LD B, L");
        assert("LD B, L"@ =~= "LD "@ + "B"@ + ", "@ + "L"@);
    } else if b == 0x46 {
        reveal_strlit("LD B, (HL)");
        assert("LD B, (HL)"@ =~= "LD "@ + "B"@ + ", "@ + "(HL)"@);
    } else if b == 0x47 {
        reveal_strlit("LD B, A");
        assert("LD B, A"@ =~= "LD "@ + "B"@ + ", "@ + "A"@);
    }
}

proof fn lemma_base_row_09(b: u8)
    requires
        0x48 <= b < 0x50,
    ensures
        base_entry_named(b),
{
    reveal_strlit("(HL)");
    reveal_strlit(", ");
    reveal_strlit("A");
    reveal_strlit("B");
    reveal_strlit("C");
    reveal_strlit("D");
    reveal_strlit("E");
    reveal_strlit("H");
    reveal_strlit("L");
    reveal_strlit("LD ");
    if b == 0x48 {
        reveal_strlit("LD C, B");
        assert("LD C, B"@ =~= "LD "@ + "C"@ + ", "@ + "B"@);
    } else if b == 0x49 {
        reveal_strlit("LD C, C");
        assert("LD C, C"@ =~= "LD "@ + "C"@ + ", "@ + "C"@);
    } else if b == 0x4a {
        reveal_strlit("LD C, D");
        assert("LD C, D"@ =~= "LD "@ + "C"@ + ", "@ + "D"@);
    } else if b == 0x4b {
        reveal_strlit("LD C, E");
        assert("LD C, E"@ =~= "LD "@ + "C"@ + ", "@ + "E"@);
    } else if b == 0x4c {
        reveal_strlit("LD C, H");
        assert("LD C, H"@ =~= "LD "@ + "C"@ + ", "@ + "H"@);
    } else if b == 0x4d {
        reveal_strlit("LD C, L");
        assert("LD C, L"@ =~= "LD "@ + "C"@ + ", "@ + "L"@);
    } else if b == 0x4e {
        reveal_strlit("LD C, (HL)");
        assert("LD C, (HL)"@ =~= "LD "@ + "C"@ + ", "@ + "(HL)"@);
    } else if b == 0x4f {
        reveal_strlit("LD C, A");
        assert("LD C, A"@ =~= "LD "@ + "C"@ + ", "@ + "A"@);
    }
}

proof fn lemma_base_row_10(b: u8)
    requires
        0x50 <= b < 0x58,
    ensures
        base_entry_named(b),
{
    reveal_strlit("(HL)");
    reveal_strlit(", ");
    reveal_strlit("A");
    reveal_strlit("B");
    reveal_strlit("C");
    reveal_strlit("D");
    reveal_strlit("E");
    reveal_strlit("H");
    reveal_strlit("L");
    reveal_strlit("LD ");
    if b == 0x50 {
        reveal_strlit("LD D, B");
        assert("LD D, B"@ =~= "LD "@ + "D"@ + ", "@ + "B"@);
    } else if b == 0x51 {
        reveal_strlit("LD D, C");
        assert("LD D, C"@ =~= "LD "@ + "D"@ + ", "@ + "C"@);
    } else if b == 0x52 {
        reveal_strlit("LD D, D");
        assert("LD D, D"@ =~= "LD "@ + "D"@ + ", "@ + "D"@);
    } else if b == 0x53 {
        reveal_strlit("LD D, E");
        assert("LD D, E"@ =~= "LD "@ + "D"@ + ", "@ + "E"@);
    } else if b == 0x54 {
        reveal_strlit("LD D, H");
        assert("LD D, H"@ =~= "LD "@ + "D"@ + ", "@ + "H"@);
    } else if b == 0x55 {
        reveal_strlit("LD D, L");
        assert("LD D, L"@ =~= "LD "@ + "D"@ + ", "@ + "L"@);
    } else if b == 0x56 {
        reveal_strlit("LD D, (HL)");
        assert("LD D, (HL)"@ =~= "LD "@ + "D"@ + ", "@ + "(HL)"@);
    } else if b == 0x57 {
        reveal_strlit("LD D, A");
        assert("LD D, A"@ =~= "LD "@ + "D"@ + ", "@ + "A"@);
    }
}

proof fn lemma_base_row_11(b: u8)
    requires
        0x58 <= b < 0x60,
    ensures
        base_entry_named(b),
{
    reveal_strlit("(HL)");
    reveal_strlit(", ");
    reveal_strlit("A");
    reveal_strlit("B");
    reveal_strlit("C");
    reveal_strlit("D");
    reveal_strlit("E");
    reveal_strlit("H");
    reveal_strlit("L");
    reveal_strlit("LD ");
    if b == 0x58 {
        reveal_strlit("LD E, B");
        assert("LD E, B"@ =~= "LD "@ + "E"@ + ", "@ + "B"@);
    } else if b == 0x59 {
        reveal_strlit("LD E, C");
        assert("LD E, C"@ =~= "LD "@ + "E"@ + ", "@ + "C"@);
    } else if b == 0x5a {
        reveal_strlit("LD E, D");
        assert("LD E, D"@ =~= "LD "@ + "E"@ + ", "@ + "D"@);
    } else if b == 0x5b {
        reveal_strlit("LD E, E");
        assert("LD E, E"@ =~= "LD "@ + "E"@ + ", "@ + "E"@);
    } else if b == 0x5c {
        reveal_strlit("LD E, H");
        assert("LD E, H"@ =~= "LD "@ + "E"@ + ", "@ + "H"@);
    } else if b == 0x5d {
        reveal_strlit("LD E, L");
        assert("LD E, L"@ =~= "LD "@ + "E"@ + ", "@ + "L"@);
    } else if b == 0x5e {
        reveal_strlit("LD E, (HL)");
        assert("LD E, (HL)"@ =~= "LD "@ + "E"@ + ", "@ + "(HL)"@);
    } else if b == 0x5f {
        reveal_strlit("LD E, A");
        assert("LD E, A"@ =~= "LD "@ + "E"@ + ", "@ + "A"@);
    }
}

proof fn lemma_base_row_12(b: u8)
    requires
        0x60 <= b < 0x68,
    ensures
        base_entry_named(b),
{
    reveal_strlit("(HL)");
    reveal_strlit(", ");
    reveal_strlit("A");
    reveal_strlit("B");
    reveal_strlit("C");
    reveal_strlit("D");
    reveal_strlit("E");
    reveal_strlit("H");
    reveal_strlit("L");
    reveal_strlit("LD ");
    if b == 0x60 {
        reveal_strlit("LD H, B");
        assert("LD H, B"@ =~= "LD "@ + "H"@ + ", "@ + "B"@);
    } else if b == 0x61 {
        reveal_strlit("LD H, C");
        assert("LD H, C"@ =~= "LD "@ + "H"@ + ", "@ + "C"@);
    } else if b == 0x62 {
        reveal_strlit("LD H, D");
        assert("LD H, D"@ =~= "LD "@ + "H"@ + ", "@ + "D"@);
    } else if b == 0x63 {
        reveal_strlit("LD H, E");
        assert("LD H, E"@ =~= "LD "@ + "H"@ + ", "@ + "E"@);
    } else if b == 0x64 {
        reveal_strlit("LD H, H");
        assert("LD H, H"@ =~= "LD "@ + "H"@ + ", "@ + "H"@);
    } else if b == 0x65 {
        reveal_strlit("LD H, L");
        assert("LD H, L"@ =~= "LD "@ + "H"@ + ", "@ + "L"@);
    } else if b == 0x66 {
        reveal_strlit("LD H, (HL)");
        assert("LD H, (HL)"@ =~= "LD "@ + "H"@ + ", "@ + "(HL)"@);
    } else if b == 0x67 {
        reveal_strlit("LD H, A");
        assert("LD H, A"@ =~= "LD "@ + "H"@ + ", "@ + "A"@);
    }
}

proof fn lemma_base_row_13(b: u8)
    requires
        0x68 <= b < 0x70,
    ensures
        base_entry_named(b),
{
    reveal_strlit("(HL)");
    reveal_strlit(", ");
    reveal_strlit("A");
    reveal_strlit("B");
    reveal_strlit("C");
    reveal_strlit("D");
    reveal_strlit("E");
    reveal_strlit("H");
    reveal_strlit("L");
    reveal_strlit("LD ");
    if b == 0x68 {
        reveal_strlit("LD L, B");
        assert("LD L, B"@ =~= "LD "@ + "L"@ + ", "@ + "B"@);
    } else if b == 0x69 {
        reveal_strlit("LD L, C");
        assert("LD L, C"@ =~= "LD "@ + "L"@ + ", "@ + "C"@);
    } else if b == 0x6a {
        reveal_strlit("LD L, D");
        assert("LD L, D"@ =~= "LD "@ + "L"@ + ", "@ + "D"@);
    } else if b == 0x6b {
        reveal_strlit("LD L, E");
        assert("LD L, E"@ =~= "LD "@ + "L"@ + ", "@ + "E"@);
    } else if b == 0x6c {
        reveal_strlit("LD L, H");
        assert("LD L, H"@ =~= "LD "@ + "L"@ + ", "@ + "H"@);
    } else if b == 0x6d {
        reveal_strlit("LD L, L");
        assert("LD L, L"@ =~= "LD "@ + "L"@ + ", "@ + "L"@);
    } else if b == 0x6e {
        reveal_strlit("LD L, (HL)");
        assert("LD L, (HL)"@ =~= "LD "@ + "L"@ + ", "@ + "(HL)"@);
    } else if b == 0x6f {
        reveal_strlit("LD L, A");
        assert("LD L, A"@ =~= "LD "@ + "L"@ + ", "@ + "A"@);
    }
}

proof fn lemma_base_row_14(b: u8)
    requires
        0x70 <= b < 0x78,
    ensures
        base_entry_named(b),
{
    reveal_strlit("(HL)");
    reveal_strlit(", ");
    reveal_strlit("A");
    reveal_strlit("B");
    reveal_strlit("C");
    reveal_strlit("D");
    reveal_strlit("E");
    reveal_strlit("H");
    reveal_strlit("HALT");
    reveal_strlit("L");
    reveal_strlit("LD ");
    if b == 0x70 {
        reveal_strlit("LD (HL), B");
        assert("LD (HL), B"@ =~= "LD "@ + "(HL)"@ + ", "@ + "B"@);
    } else if b == 0x71 {
        reveal_strlit("LD (HL), C");
        assert("LD (HL), C"@ =~= "LD "@ + "(HL)"@ + ", "@ + "C"@);
    } else if b == 0x72 {
        reveal_strlit("LD (HL), D");
        assert("LD (HL), D"@ =~= "LD "@ + "(HL)"@ + ", "@ + "D"@);
    } else if b == 0x73 {
        reveal_strlit("LD (HL), E");
        assert("LD (HL), E"@ =~= "LD "@ + "(HL)"@ + ", "@ + "E"@);
    } else if b == 0x74 {
        reveal_strlit("LD (HL), H");
        assert("LD (HL), H"@ =~= "LD "@ + "(HL)"@ + ", "@ + "H"@);
    } else if b == 0x75 {
        reveal_strlit("LD (HL), L");
        assert("LD (HL), L"@ =~= "LD "@ + "(HL)"@ + ", "@ + "L"@);
    } else if b == 0x76 {
        reveal_strlit("HALT");
        assert("HALT"@ =~= "HALT"@);
    } else if b == 0x77 {
        reveal_strlit("LD (HL), A");
        assert("LD (HL), A"@ =~= "LD "@ + "(HL)"@ + ", "@ + "A"@);
    }
}

proof fn lemma_base_row_15(b: u8)
    requires
        0x78 <= b < 0x80,
    ensures
        base_entry_named(b),
{
    reveal_strlit("(HL)");
    reveal_strlit(", ");
    reveal_strlit("A");
    reveal_strlit("B");
    reveal_strlit("C");
    reveal_strlit("D");
    reveal_strlit("E");
    reveal_strlit("H");
    reveal_strlit("L");
    reveal_strlit("LD ");
    if b == 0x78 {
        reveal_strlit("LD A, B");
        assert("LD A, B"@ =~= "LD "@ + "A"@ + ", "@ + "B"@);
    } else if b == 0x79 {
        reveal_strlit("LD A, C");
        assert("LD A, C"@ =~= "LD "@ + "A"@ + ", "@ + "C"@);
    } else if b == 0x7a {
        reveal_strlit("LD A, D");
        assert("LD A, D"@ =~= "LD "@ + "A"@ + ", "@ + "D"@);
    } else if b == 0x7b {
        reveal_strlit("LD A, E");
        assert("LD A, E"@ =~= "LD "@ + "A"@ + ", "@ + "E"@);
    } else if b == 0x7c {
        reveal_strlit("LD A, H");
        assert("LD A, H"@ =~= "LD "@ + "A"@ + ", "@ + "H"@);
    } else if b == 0x7d {
        reveal_strlit("LD A, L");
        assert("LD A, L"@ =~= "LD "@ + "A"@ + ", "@ + "L"@);
    } else if b == 0x7e {
        reveal_strlit("LD A, (HL)");
        assert("LD A, (HL)"@ =~= "LD "@ + "A"@ + ", "@ + "(HL)"@);
    } else if b == 0x7f {
        reveal_strlit("LD A, A");
        assert("LD A, A"@ =~= "LD "@ + "A"@ + ", "@ + "A"@);
    }
}

proof fn lemma_base_row_16(b: u8)
    requires
        0x80 <= b < 0x88,
    ensures
        base_entry_named(b),
{
    reveal_strlit("(HL)");
    reveal_strlit("A");
    reveal_strlit("ADD A, ");
    reveal_strlit("B");
    reveal_strlit("C");
    reveal_strlit("D");
    reveal_strlit("E");
    reveal_strlit("H");
    reveal_strlit("L");
    if b == 0x80 {
        reveal_strlit("ADD A, B");
        assert("ADD A, B"@ =~= "ADD A, "@ + "B"@);
    } else if b == 0x81 {
        reveal_strlit("ADD A, C");
        assert("ADD A, C"@ =~= "ADD A, "@ + "C"@);
    } else if b == 0x82 {
        reveal_strlit("ADD A, D");
        assert("ADD A, D"@ =~= "ADD A, "@ + "D"@);
    } else if b == 0x83 {
        reveal_strlit("ADD A, E");
        assert("ADD A, E"@ =~= "ADD A, "@ + "E"@);
    } else if b == 0x84 {
        reveal_strlit("ADD A, H");
        assert("ADD A, H"@ =~= "ADD A, "@ + "H"@);
    } else if b == 0x85 {
        reveal_strlit("ADD A, L");
        assert("ADD A, L"@ =~= "ADD A, "@ + "L"@);
    } else if b == 0x86 {
        reveal_strlit("ADD A, (HL)");
        assert("ADD A, (HL)"@ =~= "ADD A, "@ + "(HL)"@);
    } else if b == 0x87 {
        reveal_strlit("ADD A, A");
        assert("ADD A, A"@ =~= "ADD A, "@ + "A"@);
    }
}

proof fn lemma_base_row_17(b: u8)
    requires
        0x88 <= b < 0x90,
    ensures
        base_entry_named(b),
{
    reveal_strlit("(HL)");
    reveal_strlit("A");
    reveal_strlit("ADC A, ");
    reveal_strlit("B");
    reveal_strlit("C");
    reveal_strlit("D");
    reveal_strlit("E");
    reveal_strlit("H");
    reveal_strlit("L");
    if b == 0x88 {
        reveal_strlit("ADC A, B");
        assert("ADC A, B"@ =~= "ADC A, "@ + "B"@);
    } else if b == 0x89 {
        reveal_strlit("ADC A, C");
        assert("ADC A, C"@ =~= "ADC A, "@ + "C"@);
    } else if b == 0x8a {
        reveal_strlit("ADC A, D");
        assert("ADC A, D"@ =~= "ADC A, "@ + "D"@);
    } else if b == 0x8b {
        reveal_strlit("ADC A, E");
        assert("ADC A, E"@ =~= "ADC A, "@ + "E"@);
    } else if b == 0x8c {
        reveal_strlit("ADC A, H");
        assert("ADC A, H"@ =~= "ADC A, "@ + "H"@);
    } else if b == 0x8d {
        reveal_strlit("ADC A, L");
        assert("ADC A, L"@ =~= "ADC A, "@ + "L"@);
    } else if b == 0x8e {
        reveal_strlit("ADC A, (HL)");
        assert("ADC A, (HL)"@ =~= "ADC A, "@ + "(HL)"@);
    } else if b == 0x8f {
        reveal_strlit("ADC A, A");
        assert("ADC A, A"@ =~= "ADC A, "@ + "A"@);
    }
}

proof fn lemma_base_row_18(b: u8)
    requires
        0x90 <= b < 0x98,
    ensures
        base_entry_named(b),
{
    reveal_strlit("(HL)");
    reveal_strlit("A");
    reveal_strlit("B");
    reveal_strlit("C");
    reveal_strlit("D");
    reveal_strlit("E");
    reveal_strlit("H");
    reveal_strlit("L");
    reveal_strlit("SUB ");
    if b == 0x90 {
        reveal_strlit("SUB B");
        assert("SUB B"@ =~= "SUB "@ + "B"@);
    } else if b == 0x91 {
        reveal_strlit("SUB C");
        assert("SUB C"@ =~= "SUB "@ + "C"@);
    } else if b == 0x92 {
        reveal_strlit("SUB D");
        assert("SUB D"@ =~= "SUB "@ + "D"@);
    } else if b == 0x93 {
        reveal_strlit("SUB E");
        assert("SUB E"@ =~= "SUB "@ + "E"@);
    } else if b == 0x94 {
        reveal_strlit("SUB H");
        assert("SUB H"@ =~= "SUB "@ + "H"@);
    } else if b == 0x95 {
        reveal_strlit("SUB L");
        assert("SUB L"@ =~= "SUB "@ + "L"@);
    } else if b == 0x96 {
        reveal_strlit("SUB (HL)");
        assert("SUB (HL)"@ =~= "SUB "@ + "(HL)"@);
    } else if b == 0x97 {
        reveal_strlit("SUB A");
        assert("SUB A"@ =~= "SUB "@ + "A"@);
    }
}

proof fn lemma_base_row_19(b: u8)
    requires
        0x98 <= b < 0xa0,
    ensures
        base_entry_named(b),
{
    reveal_strlit("(HL)");
    reveal_strlit("A");
    reveal_strlit("B");
    reveal_strlit("C");
    reveal_strlit("D");
    reveal_strlit("E");
    reveal_strlit("H");
    reveal_strlit("L");
    reveal_strlit("SBC A, ");
    if b == 0x98 {
        reveal_strlit("SBC A, B");
        assert("SBC A, B"@ =~= "SBC A, "@ + "B"@);
    } else if b == 0x99 {
        reveal_strlit("SBC A, C");
        assert("SBC A, C"@ =~= "SBC A, "@ + "C"@);
    } else if b == 0x9a {
        reveal_strlit("SBC A, D");
        assert("SBC A, D"@ =~= "SBC A, "@ + "D"@);
    } else if b == 0x9b {
        reveal_strlit("SBC A, E");
        assert("SBC A, E"@ =~= "SBC A, "@ + "E"@);
    } else if b == 0x9c {
        reveal_strlit("SBC A, H");
        assert("SBC A, H"@ =~= "SBC A, "@ + "H"@);
    } else if b == 0x9d {
        reveal_strlit("SBC A, L");
        assert("SBC A, L"@ =~= "SBC A, "@ + "L"@);
    } else if b == 0x9e {
        reveal_strlit("SBC A, (HL)");
        assert("SBC A, (HL)"@ =~= "SBC A, "@ + "(HL)"@);
    } else if b == 0x9f {
        reveal_strlit("SBC A, A");
        assert("SBC A, A"@ =~= "SBC A, "@ + "A"@);
    }
}

proof fn lemma_base_row_20(b: u8)
    requires
        0xa0 <= b < 0xa8,
    ensures
        base_entry_named(b),
{
    reveal_strlit("(HL)");
    reveal_strlit("A");
    reveal_strlit("AND ");
    reveal_strlit("B");
    reveal_strlit("C");
    reveal_strlit("D");
    reveal_strlit("E");
    reveal_strlit("H");
    reveal_strlit("L");
    if b == 0xa0 {
        reveal_strlit("AND B");
        assert("AND B"@ =~= "AND "@ + "B"@);
    } else if b == 0xa1 {
        reveal_strlit("AND C");
        assert("AND C"@ =~= "AND "@ + "C"@);
    } else if b == 0xa2 {
        reveal_strlit("AND D");
        assert("AND D"@ =~= "AND "@ + "D"@);
    } else if b == 0xa3 {
        reveal_strlit("AND E");
        assert("AND E"@ =~= "AND "@ + "E"@);
    } else if b == 0xa4 {
        reveal_strlit("AND H");
        assert("AND H"@ =~= "AND "@ + "H"@);
    } else if b == 0xa5 {
        reveal_strlit("AND L");
        assert("AND L"@ =~= "AND "@ + "L"@);
    } else if b == 0xa6 {
        reveal_strlit("AND (HL)");
        assert("AND (HL)"@ =~= "AND "@ + "(HL)"@);
    } else if b == 0xa7 {
        reveal_strlit("AND A");
        assert("AND A"@ =~= "AND "@ + "A"@);
    }
}

proof fn lemma_base_row_21(b: u8)
    requires
        0xa8 <= b < 0xb0,
    ensures
        base_entry_named(b),
{
    reveal_strlit("(HL)");
    reveal_strlit("A");
    reveal_strlit("B");
    reveal_strlit("C");
    reveal_strlit("D");
    reveal_strlit("E");
    reveal_strlit("H");
    reveal_strlit("L");
    reveal_strlit("XOR ");
    if b == 0xa8 {
        reveal_strlit("XOR B");
        assert("XOR B"@ =~= "XOR "@ + "B"@);
    } else if b == 0xa9 {
        reveal_strlit("XOR C");
        assert("XOR C"@ =~= "XOR "@ + "C"@);
    } else if b == 0xaa {
        reveal_strlit("XOR D");
        assert("XOR D"@ =~= "XOR "@ + "D"@);
    } else if b == 0xab {
        reveal_strlit("XOR E");
        assert("XOR E"@ =~= "XOR "@ + "E"@);
    } else if b == 0xac {
        reveal_strlit("XOR H");
        assert("XOR H"@ =~= "XOR "@ + "H"@);
    } else if b == 0xad {
        reveal_strlit("XOR L");
        assert("XOR L"@ =~= "XOR "@ + "L"@);
    } else if b == 0xae {
        reveal_strlit("XOR (HL)");
        assert("XOR (HL)"@ =~= "XOR "@ + "(HL)"@);
    } else if b == 0xaf {
        reveal_strlit("XOR A");
        assert("XOR A"@ =~= "XOR "@ + "A"@);
    }
}

proof fn lemma_base_row_22(b: u8)
    requires
        0xb0 <= b < 0xb8,
    ensures
        base_entry_named(b),
{
    reveal_strlit("(HL)");
    reveal_strlit("A");
    reveal_strlit("B");
    reveal_strlit("C");
    reveal_strlit("D");
    reveal_strlit("E");
    reveal_strlit("H");
    reveal_strlit("L");
    reveal_strlit("OR ");
    if b == 0xb0 {
        reveal_strlit("OR B");
        assert("OR B"@ =~= "OR "@ + "B"@);
    } else if b == 0xb1 {
        reveal_strlit("OR C");
        assert("OR C"@ =~= "OR "@ + "C"@);
    } else if b == 0xb2 {
        reveal_strlit("OR D");
        assert("OR D"@ =~= "OR "@ + "D"@);
    } else if b == 0xb3 {
        reveal_strlit("OR E");
        assert("OR E"@ =~= "OR "@ + "E"@);
    } else if b == 0xb4 {
        reveal_strlit("OR H");
        assert("OR H"@ =~= "OR "@ + "H"@);
    } else if b == 0xb5 {
        reveal_strlit("OR L");
        assert("OR L"@ =~= "OR "@ + "L"@);
    } else if b == 0xb6 {
        reveal_strlit("OR (HL)");
        assert("OR (HL)"@ =~= "OR "@ + "(HL)"@);
    } else if b == 0xb7 {
        reveal_strlit("OR A");
        assert("OR A"@ =~= "OR "@ + "A"@);
    }
}

proof fn lemma_base_row_23(b: u8)
    requires
        0xb8 <= b < 0xc0,
    ensures
        base_entry_named(b),
{
    reveal_strlit("(HL)");
    reveal_strlit("A");
    reveal_strlit("B");
    reveal_strlit("C");
    reveal_strlit("CP ");
    reveal_strlit("D");
    reveal_strlit("E");
    reveal_strlit("H");
    reveal_strlit("L");
    if b == 0xb8 {
        reveal_strlit("CP B");
        assert("CP B"@ =~= "CP "@ + "B"@);
    } else if b == 0xb9 {
        reveal_strlit("CP C");
        assert("CP C"@ =~= "CP "@ + "C"@);
    } else if b == 0xba {
        reveal_strlit("CP D");
        assert("CP D"@ =~= "CP "@ + "D"@);
    } else if b == 0xbb {
        reveal_strlit("CP E");
        assert("CP E"@ =~= "CP "@ + "E"@);
    } else if b == 0xbc {
        reveal_strlit("CP H");
        assert("CP H"@ =~= "CP "@ + "H"@);
    } else if b == 0xbd {
        reveal_strlit("CP L");
        assert("CP L"@ =~= "CP "@ + "L"@);
    } else if b == 0xbe {
        reveal_strlit("CP (HL)");
        assert("CP (HL)"@ =~= "CP "@ + "(HL)"@);
    } else if b == 0xbf {
        reveal_strlit("CP A");
        assert("CP A"@ =~= "CP "@ + "A"@);
    }
}

proof fn lemma_base_row_24(b: u8)
    requires
        0xc0 <= b < 0xc8,
    ensures
        base_entry_named(b),
{
    reveal_strlit(", {imm16}");
    reveal_strlit("ADD A, ");
    reveal_strlit("BC");
    reveal_strlit("CALL ");
    reveal_strlit("JP ");
    reveal_strlit("NZ");
    reveal_strlit("POP ");
    reveal_strlit("PUSH ");
    reveal_strlit("RET ");
    reveal_strlit("RST $");
    reveal_strlit("{imm8}");
    if b == 0xc0 {
        reveal_strlit("RET NZ");
        assert("RET NZ"@ =~= "RET "@ + "NZ"@);
    } else if b == 0xc1 {
        reveal_strlit("POP BC");
        assert("POP BC"@ =~= "POP "@ + "BC"@);
    } else if b == 0xc2 {
        reveal_strlit("JP NZ, {imm16}");
        assert("JP NZ, {imm16}"@ =~= "JP "@ + "NZ"@ + ", {imm16}"@);
    } else if b == 0xc4 {
        reveal_strlit("CALL NZ, {imm16}");
        assert("CALL NZ, {imm16}"@ =~= "CALL "@ + "NZ"@ + ", {imm16}"@);
    } else if b == 0xc5 {
        reveal_strlit("PUSH BC");
        assert("PUSH BC"@ =~= "PUSH "@ + "BC"@);
    } else if b == 0xc6 {
        reveal_strlit("ADD A, {imm8}");
        assert("ADD A, {imm8}"@ =~= "ADD A, "@ + "{imm8}"@);
    } else if b == 0xc7 {
        reveal_strlit("RST $00");
        assert("RST $00"@ =~= "RST $"@ + digit(0) + digit(0));
    }
}

proof fn lemma_base_row_25(b: u8)
    requires
        0xc8 <= b < 0xd0,
    ensures
        base_entry_named(b),
{
    reveal_strlit(", {imm16}");
    reveal_strlit("ADC A, ");
    reveal_strlit("CALL ");
    reveal_strlit("JP ");
    reveal_strlit("RET ");
    reveal_strlit("RST $");
    reveal_strlit("Z");
    reveal_strlit("{imm8}");
    if b == 0xc8 {
        reveal_strlit("RET Z");
        assert("RET Z"@ =~= "RET "@ + "Z"@);
    } else if b == 0xca {
        reveal_strlit("JP Z, {imm16}");
        assert("JP Z, {imm16}"@ =~= "JP "@ + "Z"@ + ", {imm16}"@);
    } else if b == 0xcc {
        reveal_strlit("CALL Z, {imm16}");
        assert("CALL Z, {imm16}"@ =~= "CALL "@ + "Z"@ + ", {imm16}"@);
    } else if b == 0xce {
        reveal_strlit("ADC A, {imm8}");
        assert("ADC A, {imm8}"@ =~= "ADC A, "@ + "{imm8}"@);
    } else if b == 0xcf {
        reveal_strlit("RST $08");
        assert("RST $08"@ =~= "RST $"@ + digit(0) + digit(8));
    }
}

proof fn lemma_base_row_26(b: u8)
    requires
        0xd0 <= b < 0xd8,
    ensures
        base_entry_named(b),
{
    reveal_strlit(", {imm16}");
    reveal_strlit("CALL ");
    reveal_strlit("DE");
    reveal_strlit("JP ");
    reveal_strlit("NC");
    reveal_strlit("POP ");
    reveal_strlit("PUSH ");
    reveal_strlit("RET ");
    reveal_strlit("RST $");
    reveal_strlit("SUB ");
    reveal_strlit("{imm8}");
    if b == 0xd0 {
        reveal_strlit("RET NC");
        assert("RET NC"@ =~= "RET "@ + "NC"@);
    } else if b == 0xd1 {
        reveal_strlit("POP DE");
        assert("POP DE"@ =~= "POP "@ + "DE"@);
    } else if b == 0xd2 {
        reveal_strlit("JP NC, {imm16}");
        assert("JP NC, {imm16}"@ =~= "JP "@ + "NC"@ + ", {imm16}"@);
    } else if b == 0xd4 {
        reveal_strlit("CALL NC, {imm16}");
        assert("CALL NC, {imm16}"@ =~= "CALL "@ + "NC"@ + ", {imm16}"@);
    } else if b == 0xd5 {
        reveal_strlit("PUSH DE");
        assert("PUSH DE"@ =~= "PUSH "@ + "DE"@);
    } else if b == 0xd6 {
        reveal_strlit("SUB {imm8}");
        assert("SUB {imm8}"@ =~= "SUB "@ + "{imm8}"@);
    } else if b == 0xd7 {
        reveal_strlit("RST $10");
        assert("RST $10"@ =~= "RST $"@ + digit(1) + digit(0));
    }
}

proof fn lemma_base_row_27(b: u8)
    requires
        0xd8 <= b < 0xe0,
    ensures
        base_entry_named(b),
{
    reveal_strlit(", {imm16}");
    reveal_strlit("C");
    reveal_strlit("CALL ");
    reveal_strlit("JP ");
    reveal_strlit("RET ");
    reveal_strlit("RST $");
    reveal_strlit("SBC A, ");
    reveal_strlit("{imm8}");
    if b == 0xd8 {
        reveal_strlit("RET C");
        assert("RET C"@ =~= "RET "@ + "C"@);
    } else if b == 0xda {
        reveal_strlit("JP C, {imm16}");
        assert("JP C, {imm16}"@ =~= "JP "@ + "C"@ + ", {imm16}"@);
    } else if b == 0xdc {
        reveal_strlit("CALL C, {imm16}");
        assert("CALL C, {imm16}"@ =~= "CALL "@ + "C"@ + ", {imm16}"@);
    } else if b == 0xde {
        reveal_strlit("SBC A, {imm8}");
        assert("SBC A, {imm8}"@ =~= "SBC A, "@ + "{imm8}"@);
    } else if b == 0xdf {
        reveal_strlit("RST $18");
        assert("RST $18"@ =~= "RST $"@ + digit(1) + digit(8));
    }
}

proof fn lemma_base_row_28(b: u8)
    requires
        0xe0 <= b < 0xe8,
    ensures
        base_entry_named(b),
{
    reveal_strlit("AND ");
    reveal_strlit("HL");
    reveal_strlit("POP ");
    reveal_strlit("PUSH ");
    reveal_strlit("RST $");
    reveal_strlit("{imm8}");
    if b == 0xe1 {
        reveal_strlit("POP HL");
        assert("POP HL"@ =~= "POP "@ + "HL"@);
    } else if b == 0xe5 {
        reveal_strlit("PUSH HL");
        assert("PUSH HL"@ =~= "PUSH "@ + "HL"@);
    } else if b == 0xe6 {
        reveal_strlit("AND {imm8}");
        assert("AND {imm8}"@ =~= "AND "@ + "{imm8}"@);
    } else if b == 0xe7 {
        reveal_strlit("RST $20");
        assert("RST $20"@ =~= "RST $"@ + digit(2) + digit(0));
    }
}

proof fn lemma_base_row_29(b: u8)
    requires
        0xe8 <= b < 0xf0,
    ensures
        base_entry_named(b),
{
    reveal_strlit("RST $");
    reveal_strlit("XOR ");
    reveal_strlit("{imm8}");
    if b == 0xee {
        reveal_strlit("XOR {imm8}");
        assert("XOR {imm8}"@ =~= "XOR "@ + "{imm8}"@);
    } else if b == 0xef {
        reveal_strlit("RST $28");
        assert("RST $28"@ =~= "RST $"@ + digit(2) + digit(8));
    }
}

proof fn lemma_base_row_30(b: u8)
    requires
        0xf0 <= b < 0xf8,
    ensures
        base_entry_named(b),
{
    reveal_strlit("AF");
    reveal_strlit("OR ");
    reveal_strlit("POP ");
    reveal_strlit("PUSH ");
    reveal_strlit("RST $");
    reveal_strlit("{imm8}");
    if b == 0xf1 {
        reveal_strlit("POP AF");
        assert("POP AF"@ =~= "POP "@ + "AF"@);
    } else if b == 0xf5 {
        reveal_strlit("PUSH AF");
        assert("PUSH AF"@ =~= "PUSH "@ + "AF"@);
    } else if b == 0xf6 {
        reveal_strlit("OR {imm8}");
        assert("OR {imm8}"@ =~= "OR "@ + "{imm8}"@);
    } else if b == 0xf7 {
        reveal_strlit("RST $30");
        assert("RST $30"@ =~= "RST $"@ + digit(3) + digit(0));
    }
}

proof fn lemma_base_row_31(b: u8)
    requires
        0xf8 <= b < 0x100,
    ensures
        base_entry_named(b),
{
    reveal_strlit("CP ");
    reveal_strlit("RST $");
    reveal_strlit("{imm8}");
    if b == 0xfe {
        reveal_strlit("CP {imm8}");
        assert("CP {imm8}"@ =~= "CP "@ + "{imm8}"@);
    } else if b == 0xff {
        reveal_strlit("RST $38");
        assert("RST $38"@ =~= "RST $"@ + digit(3) + digit(8));
    }
}

/// Every instruction without the prefix is listed under its own byte, and
/// its length is the opcode byte and its immediate operand (STOP, 0x10, is
/// two bytes long with none). Where the encoding names an instruction (see
/// `encoded_text`), its text is that name. The register blocks 0x40-0xBF take
/// no operand and take 4 cycles, 8 when one operand is (HL).
pub proof fn lemma_base_table(b: u8)
    ensures
        spec_base_opcode(b) matches Some(op) ==> op.code == b && !op.extended,
        spec_base_opcode(b) matches Some(op) ==> (b != 0x10 ==> op.length == 1 + match op.argument_type {
            ArgumentType::Imm8 => 1u16,
            ArgumentType::Imm16 => 2u16,
            _ => 0u16,
        }),
        encoded_text(b) matches Some(t) ==> spec_base_opcode(b) is Some && spec_base_opcode(b)->0.mnemonic@
            == t,
        0x40 <= b < 0xC0 ==> spec_base_opcode(b)->0.argument_type == ArgumentType::Implied,
        (0x40 <= b < 0xC0 && b != 0x76) ==> spec_base_opcode(b)->0.cycles == (if b % 8 == 6 || (b < 0x80
            && (b - 0x40) / 8 == 6) {
            8u8
        } else {
            4u8
        }),
{
    if b < 0x08 {
        lemma_base_row_00(b);
    } else if b < 0x10 {
        lemma_base_row_01(b);
    } else if b < 0x18 {
        lemma_base_row_02(b);
    } else if b < 0x20 {
        lemma_base_row_03(b);
    } else if b < 0x28 {
        lemma_base_row_04(b);
    } else if b < 0x30 {
        lemma_base_row_05(b);
    } else if b < 0x38 {
        lemma_base_row_06(b);
    } else if b < 0x40 {
        lemma_base_row_07(b);
    } else if b < 0x48 {
        lemma_base_row_08(b);
    } else if b < 0x50 {
        lemma_base_row_09(b);
    } else if b < 0x58 {
        lemma_base_row_10(b);
    } else if b < 0x60 {
        lemma_base_row_11(b);
    } else if b < 0x68 {
        lemma_base_row_12(b);
    } else if b < 0x70 {
        lemma_base_row_13(b);
    } else if b < 0x78 {
        lemma_base_row_14(b);
    } else if b < 0x80 {
        lemma_base_row_15(b);
    } else if b < 0x88 {
        lemma_base_row_16(b);
    } else if b < 0x90 {
        lemma_base_row_17(b);
    } else if b < 0x98 {
        lemma_base_row_18(b);
    } else if b < 0xa0 {
        lemma_base_row_19(b);
    } else if b < 0xa8 {
        lemma_base_row_20(b);
    } else if b < 0xb0 {
        lemma_base_row_21(b);
    } else if b < 0xb8 {
        lemma_base_row_22(b);
    } else if b < 0xc0 {
        lemma_base_row_23(b);
    } else if b < 0xc8 {
        lemma_base_row_24(b);
    } else if b < 0xd0 {
        lemma_base_row_25(b);
    } else if b < 0xd8 {
        lemma_base_row_26(b);
    } else if b < 0xe0 {
        lemma_base_row_27(b);
    } else if b < 0xe8 {
        lemma_base_row_28(b);
    } else if b < 0xf0 {
        lemma_base_row_29(b);
    } else if b < 0xf8 {
        lemma_base_row_30(b);
    } else {
        lemma_base_row_31(b);
    }
}

/// The operand names of the encoding stand for the registers that the
/// instructions read and write: 0 B, 1 C, 2 D, 3 E, 4 H, 5 L, 7 A (6 is the
/// byte at HL).
pub proof fn lemma_operand_names(r: Registers, i: int)
    requires
        0 <= i < 8,
        i != 6,
    ensures
        reg8(r, i) == (if operand_name(i) == "B"@ {
            r.b
        } else if operand_name(i) == "C"@ {
            r.c
        } else if operand_name(i) == "D"@ {
            r.d
        } else if operand_name(i) == "E"@ {
            r.e
        } else if operand_name(i) == "H"@ {
            r.h
        } else if operand_name(i) == "L"@ {
            r.l
        } else {
            r.a
        }),
        operand_name(6) == "(HL)"@,
{
    reveal_strlit("B");
    reveal_strlit("C");
    reveal_strlit("D");
    reveal_strlit("E");
    reveal_strlit("H");
    reveal_strlit("L");
    reveal_strlit("(HL)");
    reveal_strlit("A");
    assert("B"@[0] != "C"@[0]);
    assert("B"@[0] != "D"@[0]);
    assert("B"@[0] != "E"@[0]);
    assert("B"@[0] != "H"@[0]);
    assert("B"@[0] != "L"@[0]);
    assert("B"@[0] != "A"@[0]);
    assert("C"@[0] != "D"@[0]);
    assert("C"@[0] != "E"@[0]);
    assert("C"@[0] != "H"@[0]);
    assert("C"@[0] != "L"@[0]);
    assert("C"@[0] != "A"@[0]);
    assert("D"@[0] != "E"@[0]);
    assert("D"@[0] != "H"@[0]);
    assert("D"@[0] != "L"@[0]);
    assert("D"@[0] != "A"@[0]);
    assert("E"@[0] != "H"@[0]);
    assert("E"@[0] != "L"@[0]);
    assert("E"@[0] != "A"@[0]);
    assert("H"@[0] != "L"@[0]);
    assert("H"@[0] != "A"@[0]);
    assert("L"@[0] != "A"@[0]);
}

/// The condition names stand for the flags that the conditions test: NZ Z
/// clear, Z Z set, NC C clear, C C set.
pub proof fn lemma_condition_names(r: Registers, k: int)
    requires
        0 <= k < 4,
    ensures
        condition(r, k) == (if condition_name(k) == "NZ"@ {
            !r.flags.zero
        } else if condition_name(k) == "Z"@ {
            r.flags.zero
        } else if condition_name(k) == "NC"@ {
            !r.flags.carry
        } else {
            r.flags.carry
        }),
{
    reveal_strlit("NZ");
    reveal_strlit("Z");
    reveal_strlit("NC");
    reveal_strlit("C");
    assert("NZ"@.len() != "Z"@.len());
    assert("NZ"@[1] != "NC"@[1]);
    assert("NC"@.len() != "Z"@.len());
    assert("C"@[0] != "Z"@[0]);
    assert("C"@.len() != "NZ"@.len());
    assert("C"@.len() != "NC"@.len());
}

/// The arithmetic names stand for what the operations do to A and the
/// flags, with a = A, v the operand and c the carry flag as a number: ADD
/// stores (a + v) mod 256, with C when a + v > 255 and H when the low nibbles
/// carry; ADC adds c too; SUB stores (a - v) mod 256, with N, C when a < v and
/// H when the low nibble borrows; SBC subtracts c too; AND, XOR and OR store
/// the bitwise result, with H set by AND only and C clear; CP keeps A and sets
/// the flags of SUB. Z tells whether the result is zero, and the other
/// registers stay.
pub proof fn lemma_alu_names(r: Registers, v: u8, k: int)
    requires
        0 <= k < 8,
    ensures
        ({
            let s = alu8(k, r, v);
            let a = r.a as int;
            let c: int = if r.flags.carry { 1 } else { 0 };
            &&& (Registers { a: r.a, flags: Flags {
                    zero: r.flags.zero, negative: r.flags.negative,
                    half_carry: r.flags.half_carry,
                    carry: r.flags.carry,
                    ..s.flags
                }, ..s }) == r
            &&& alu_name(k) == "ADD A, "@ ==> ({
                &&& s.a == (a + v) % 256
                &&& !s.flags.negative
                &&& s.flags.carry == (a + v > 255)
                &&& s.flags.half_carry == (a % 16 + v % 16 > 15)
                &&& s.flags.zero == (s.a == 0)
            })
            &&& alu_name(k) == "ADC A, "@ ==> ({
                &&& s.a == (a + v + c) % 256
                &&& !s.flags.negative
                &&& s.flags.carry == (a + v + c > 255)
                &&& s.flags.half_carry == (a % 16 + v % 16 + c > 15)
                &&& s.flags.zero == (s.a == 0)
            })
            &&& alu_name(k) == "SUB "@ ==> ({
                &&& s.a == (a - v + 256) % 256
                &&& s.flags.negative
                &&& s.flags.carry == (a < v)
                &&& s.flags.half_carry == (a % 16 < v % 16)
                &&& s.flags.zero == (s.a == 0)
            })
            &&& alu_name(k) == "SBC A, "@ ==> ({
                &&& s.a == (a - v - c + 512) % 256
                &&& s.flags.negative
                &&& s.flags.carry == (a < v + c)
                &&& s.flags.half_carry == (a % 16 < v % 16 + c)
                &&& s.flags.zero == (s.a == 0)
            })
            &&& alu_name(k) == "AND "@ ==> ({
                &&& s.a == r.a & v
                &&& !s.flags.negative
                &&& !s.flags.carry
                &&& s.flags.half_carry
                &&& s.flags.zero == (s.a == 0)
            })
            &&& alu_name(k) == "XOR "@ ==> ({
                &&& s.a == r.a ^ v
                &&& !s.flags.negative
                &&& !s.flags.carry
                &&& !s.flags.half_carry
                &&& s.flags.zero == (s.a == 0)
            })
            &&& alu_name(k) == "OR "@ ==> ({
                &&& s.a == r.a | v
                &&& !s.flags.negative
                &&& !s.flags.carry
                &&& !s.flags.half_carry
                &&& s.flags.zero == (s.a == 0)
            })
            &&& alu_name(k) == "CP "@ ==> ({
                &&& s.a == r.a
                &&& s.flags.negative
                &&& s.flags.carry == (a < v)
                &&& s.flags.half_carry == (a % 16 < v % 16)
                &&& s.flags.zero == (a == v)
            })
        }),
{
    reveal_strlit("ADD A, ");
    reveal_strlit("ADC A, ");
    reveal_strlit("SUB ");
    reveal_strlit("SBC A, ");
    reveal_strlit("AND ");
    reveal_strlit("XOR ");
    reveal_strlit("OR ");
    reveal_strlit("CP ");
    if k == 0 {
        assert(alu_name(0) != "ADC A, "@) by { assert(alu_name(0)[2] != "ADC A, "@[2]); }
        assert(alu_name(0) != "SUB "@) by { assert(alu_name(0).len() != "SUB "@.len()); }
        assert(alu_name(0) != "SBC A, "@) by { assert(alu_name(0)[0] != "SBC A, "@[0]); }
        assert(alu_name(0) != "AND "@) by { assert(alu_name(0).len() != "AND "@.len()); }
        assert(alu_name(0) != "XOR "@) by { assert(alu_name(0).len() != "XOR "@.len()); }
        assert(alu_name(0) != "OR "@) by { assert(alu_name(0).len() != "OR "@.len()); }
        assert(alu_name(0) != "CP "@) by { assert(alu_name(0).len() != "CP "@.len()); }
    } else if k == 1 {
        assert(alu_name(1) != "ADD A, "@) by { assert(alu_name(1)[2] != "ADD A, "@[2]); }
        assert(alu_name(1) != "SUB "@) by { assert(alu_name(1).len() != "SUB "@.len()); }
        assert(alu_name(1) != "SBC A, "@) by { assert(alu_name(1)[0] != "SBC A, "@[0]); }
        assert(alu_name(1) != "AND "@) by { assert(alu_name(1).len() != "AND "@.len()); }
        assert(alu_name(1) != "XOR "@) by { assert(alu_name(1).len() != "XOR "@.len()); }
        assert(alu_name(1) != "OR "@) by { assert(alu_name(1).len() != "OR "@.len()); }
        assert(alu_name(1) != "CP "@) by { assert(alu_name(1).len() != "CP "@.len()); }
    } else if k == 2 {
        assert(alu_name(2) != "ADD A, "@) by { assert(alu_name(2).len() != "ADD A, "@.len()); }
        assert(alu_name(2) != "ADC A, "@) by { assert(alu_name(2).len() != "ADC A, "@.len()); }
        assert(alu_name(2) != "SBC A, "@) by { assert(alu_name(2).len() != "SBC A, "@.len()); }
        assert(alu_name(2) != "AND "@) by { assert(alu_name(2)[0] != "AND "@[0]); }
        assert(alu_name(2) != "XOR "@) by { assert(alu_name(2)[0] != "XOR "@[0]); }
        assert(alu_name(2) != "OR "@) by { assert(alu_name(2).len() != "OR "@.len()); }
        assert(alu_name(2) != "CP "@) by { assert(alu_name(2).len() != "CP "@.len()); }
    } else if k == 3 {
        assert(alu_name(3) != "ADD A, "@) by { assert(alu_name(3)[0] != "ADD A, "@[0]); }
        assert(alu_name(3) != "ADC A, "@) by { assert(alu_name(3)[0] != "ADC A, "@[0]); }
        assert(alu_name(3) != "SUB "@) by { assert(alu_name(3).len() != "SUB "@.len()); }
        assert(alu_name(3) != "AND "@) by { assert(alu_name(3).len() != "AND "@.len()); }
        assert(alu_name(3) != "XOR "@) by { assert(alu_name(3).len() != "XOR "@.len()); }
        assert(alu_name(3) != "OR "@) by { assert(alu_name(3).len() != "OR "@.len()); }
        assert(alu_name(3) != "CP "@) by { assert(alu_name(3).len() != "CP "@.len()); }
    } else if k == 4 {
        assert(alu_name(4) != "ADD A, "@) by { assert(alu_name(4).len() != "ADD A, "@.len()); }
        assert(alu_name(4) != "ADC A, "@) by { assert(alu_name(4).len() != "ADC A, "@.len()); }
        assert(alu_name(4) != "SUB "@) by { assert(alu_name(4)[0] != "SUB "@[0]); }
        assert(alu_name(4) != "SBC A, "@) by { assert(alu_name(4).len() != "SBC A, "@.len()); }
        assert(alu_name(4) != "XOR "@) by { assert(alu_name(4)[0] != "XOR "@[0]); }
        assert(alu_name(4) != "OR "@) by { assert(alu_name(4).len() != "OR "@.len()); }
        assert(alu_name(4) != "CP "@) by { assert(alu_name(4).len() != "CP "@.len()); }
    } else if k == 5 {
        assert(alu_name(5) != "ADD A, "@) by { assert(alu_name(5).len() != "ADD A, "@.len()); }
        assert(alu_name(5) != "ADC A, "@) by { assert(alu_name(5).len() != "ADC A, "@.len()); }
        assert(alu_name(5) != "SUB "@) by { assert(alu_name(5)[0] != "SUB "@[0]); }
        assert(alu_name(5) != "SBC A, "@) by { assert(alu_name(5).len() != "SBC A, "@.len()); }
        assert(alu_name(5) != "AND "@) by { assert(alu_name(5)[0] != "AND "@[0]); }
        assert(alu_name(5) != "OR "@) by { assert(alu_name(5).len() != "OR "@.len()); }
        assert(alu_name(5) != "CP "@) by { assert(alu_name(5).len() != "CP "@.len()); }
    } else if k == 6 {
        assert(alu_name(6) != "ADD A, "@) by { assert(alu_name(6).len() != "ADD A, "@.len()); }
        assert(alu_name(6) != "ADC A, "@) by { assert(alu_name(6).len() != "ADC A, "@.len()); }
        assert(alu_name(6) != "SUB "@) by { assert(alu_name(6).len() != "SUB "@.len()); }
        assert(alu_name(6) != "SBC A, "@) by { assert(alu_name(6).len() != "SBC A, "@.len()); }
        assert(alu_name(6) != "AND "@) by { assert(alu_name(6).len() != "AND "@.len()); }
        assert(alu_name(6) != "XOR "@) by { assert(alu_name(6).len() != "XOR "@.len()); }
        assert(alu_name(6) != "CP "@) by { assert(alu_name(6)[0] != "CP "@[0]); }
    } else if k == 7 {
        assert(alu_name(7) != "ADD A, "@) by { assert(alu_name(7).len() != "ADD A, "@.len()); }
        assert(alu_name(7) != "ADC A, "@) by { assert(alu_name(7).len() != "ADC A, "@.len()); }
        assert(alu_name(7) != "SUB "@) by { assert(alu_name(7).len() != "SUB "@.len()); }
        assert(alu_name(7) != "SBC A, "@) by { assert(alu_name(7).len() != "SBC A, "@.len()); }
        assert(alu_name(7) != "AND "@) by { assert(alu_name(7).len() != "AND "@.len()); }
        assert(alu_name(7) != "XOR "@) by { assert(alu_name(7).len() != "XOR "@.len()); }
        assert(alu_name(7) != "OR "@) by { assert(alu_name(7)[0] != "OR "@[0]); }
    }
}

/// The shift and rotation names stand for what the operations do to a byte
/// v with carry flag c: RLC and RL move every bit up one place, bit 7 going
/// to bit 0 (RLC) or c coming in (RL); RRC and RR move every bit down, bit 0
/// going to bit 7 (RRC) or c coming in (RR); SLA shifts up with 0 coming in,
/// SRA shifts down keeping bit 7, SRL shifts down with 0 coming in, SWAP
/// exchanges the nibbles. The carry is the bit shifted out (none for SWAP).
pub proof fn lemma_shift_names(v: u8, cin: bool, k: int)
    requires
        0 <= k < 8,
    ensures
        ({
            let s = shift_value(k, v, cin) as int;
            let out = shift_carry(k, v);
            let c: int = if cin { 1 } else { 0 };
            &&& shift_name(k) == "RLC"@ ==> s == (v * 2) % 256 + v / 128 && out == (v >= 128)
            &&& shift_name(k) == "RRC"@ ==> s == v / 2 + (v % 2) * 128 && out == (v % 2 == 1)
            &&& shift_name(k) == "RL"@ ==> s == (v * 2) % 256 + c && out == (v >= 128)
            &&& shift_name(k) == "RR"@ ==> s == v / 2 + c * 128 && out == (v % 2 == 1)
            &&& shift_name(k) == "SLA"@ ==> s == (v * 2) % 256 && out == (v >= 128)
            &&& shift_name(k) == "SRA"@ ==> s == v / 2 + (v / 128) * 128 && out == (v % 2 == 1)
            &&& shift_name(k) == "SWAP"@ ==> s == (v % 16) * 16 + v / 16 && !out
            &&& shift_name(k) == "SRL"@ ==> s == v / 2 && out == (v % 2 == 1)
        }),
{
    reveal_strlit("RLC");
    reveal_strlit("RRC");
    reveal_strlit("RL");
    reveal_strlit("RR");
    reveal_strlit("SLA");
    reveal_strlit("SRA");
    reveal_strlit("SWAP");
    reveal_strlit("SRL");
    if k == 0 {
        assert(shift_name(0) != "RRC"@) by { assert(shift_name(0)[1] != "RRC"@[1]); }
        assert(shift_name(0) != "RL"@) by { assert(shift_name(0).len() != "RL"@.len()); }
        assert(shift_name(0) != "RR"@) by { assert(shift_name(0).len() != "RR"@.len()); }
        assert(shift_name(0) != "SLA"@) by { assert(shift_name(0)[0] != "SLA"@[0]); }
        assert(shift_name(0) != "SRA"@) by { assert(shift_name(0)[0] != "SRA"@[0]); }
        assert(shift_name(0) != "SWAP"@) by { assert(shift_name(0).len() != "SWAP"@.len()); }
        assert(shift_name(0) != "SRL"@) by { assert(shift_name(0)[0] != "SRL"@[0]); }
    } else if k == 1 {
        assert(shift_name(1) != "RLC"@) by { assert(shift_name(1)[1] != "RLC"@[1]); }
        assert(shift_name(1) != "RL"@) by { assert(shift_name(1).len() != "RL"@.len()); }
        assert(shift_name(1) != "RR"@) by { assert(shift_name(1).len() != "RR"@.len()); }
        assert(shift_name(1) != "SLA"@) by { assert(shift_name(1)[0] != "SLA"@[0]); }
        assert(shift_name(1) != "SRA"@) by { assert(shift_name(1)[0] != "SRA"@[0]); }
        assert(shift_name(1) != "SWAP"@) by { assert(shift_name(1).len() != "SWAP"@.len()); }
        assert(shift_name(1) != "SRL"@) by { assert(shift_name(1)[0] != "SRL"@[0]); }
    } else if k == 2 {
        assert(shift_name(2) != "RLC"@) by { assert(shift_name(2).len() != "RLC"@.len()); }
        assert(shift_name(2) != "RRC"@) by { assert(shift_name(2).len() != "RRC"@.len()); }
        assert(shift_name(2) != "RR"@) by { assert(shift_name(2)[1] != "RR"@[1]); }
        assert(shift_name(2) != "SLA"@) by { assert(shift_name(2).len() != "SLA"@.len()); }
        assert(shift_name(2) != "SRA"@) by { assert(shift_name(2).len() != "SRA"@.len()); }
        assert(shift_name(2) != "SWAP"@) by { assert(shift_name(2).len() != "SWAP"@.len()); }
        assert(shift_name(2) != "SRL"@) by { assert(shift_name(2).len() != "SRL"@.len()); }
    } else if k == 3 {
        assert(shift_name(3) != "RLC"@) by { assert(shift_name(3).len() != "RLC"@.len()); }
        assert(shift_name(3) != "RRC"@) by { assert(shift_name(3).len() != "RRC"@.len()); }
        assert(shift_name(3) != "RL"@) by { assert(shift_name(3)[1] != "RL"@[1]); }
        assert(shift_name(3) != "SLA"@) by { assert(shift_name(3).len() != "SLA"@.len()); }
        assert(shift_name(3) != "SRA"@) by { assert(shift_name(3).len() != "SRA"@.len()); }
        assert(shift_name(3) != "SWAP"@) by { assert(shift_name(3).len() != "SWAP"@.len()); }
        assert(shift_name(3) != "SRL"@) by { assert(shift_name(3).len() != "SRL"@.len()); }
    } else if k == 4 {
        assert(shift_name(4) != "RLC"@) by { assert(shift_name(4)[0] != "RLC"@[0]); }
        assert(shift_name(4) != "RRC"@) by { assert(shift_name(4)[0] != "RRC"@[0]); }
        assert(shift_name(4) != "RL"@) by { assert(shift_name(4).len() != "RL"@.len()); }
        assert(shift_name(4) != "RR"@) by { assert(shift_name(4).len() != "RR"@.len()); }
        assert(shift_name(4) != "SRA"@) by { assert(shift_name(4)[1] != "SRA"@[1]); }
        assert(shift_name(4) != "SWAP"@) by { assert(shift_name(4).len() != "SWAP"@.len()); }
        assert(shift_name(4) != "SRL"@) by { assert(shift_name(4)[1] != "SRL"@[1]); }
    } else if k == 5 {
        assert(shift_name(5) != "RLC"@) by { assert(shift_name(5)[0] != "RLC"@[0]); }
        assert(shift_name(5) != "RRC"@) by { assert(shift_name(5)[0] != "RRC"@[0]); }
        assert(shift_name(5) != "RL"@) by { assert(shift_name(5).len() != "RL"@.len()); }
        assert(shift_name(5) != "RR"@) by { assert(shift_name(5).len() != "RR"@.len()); }
        assert(shift_name(5) != "SLA"@) by { assert(shift_name(5)[1] != "SLA"@[1]); }
        assert(shift_name(5) != "SWAP"@) by { assert(shift_name(5).len() != "SWAP"@.len()); }
        assert(shift_name(5) != "SRL"@) by { assert(shift_name(5)[2] != "SRL"@[2]); }
    } else if k == 6 {
        assert(shift_name(6) != "RLC"@) by { assert(shift_name(6).len() != "RLC"@.len()); }
        assert(shift_name(6) != "RRC"@) by { assert(shift_name(6).len() != "RRC"@.len()); }
        assert(shift_name(6) != "RL"@) by { assert(shift_name(6).len() != "RL"@.len()); }
        assert(shift_name(6) != "RR"@) by { assert(shift_name(6).len() != "RR"@.len()); }
        assert(shift_name(6) != "SLA"@) by { assert(shift_name(6).len() != "SLA"@.len()); }
        assert(shift_name(6) != "SRA"@) by { assert(shift_name(6).len() != "SRA"@.len()); }
        assert(shift_name(6) != "SRL"@) by { assert(shift_name(6).len() != "SRL"@.len()); }
    } else if k == 7 {
        assert(shift_name(7) != "RLC"@) by { assert(shift_name(7)[0] != "RLC"@[0]); }
        assert(shift_name(7) != "RRC"@) by { assert(shift_name(7)[0] != "RRC"@[0]); }
        assert(shift_name(7) != "RL"@) by { assert(shift_name(7).len() != "RL"@.len()); }
        assert(shift_name(7) != "RR"@) by { assert(shift_name(7).len() != "RR"@.len()); }
        assert(shift_name(7) != "SLA"@) by { assert(shift_name(7)[1] != "SLA"@[1]); }
        assert(shift_name(7) != "SRA"@) by { assert(shift_name(7)[2] != "SRA"@[2]); }
        assert(shift_name(7) != "SWAP"@) by { assert(shift_name(7).len() != "SWAP"@.len()); }
    }
}

} // verus!
