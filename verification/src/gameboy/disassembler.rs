use vstd::prelude::*;

use crate::gameboy::memory::{le16, le_read_u16};
use crate::gameboy::opcodes::{spec_opcode, ArgumentType, OpCode};

verus! {

/// The upper-case hexadecimal digit of `d`.
pub open spec fn hex_digit(d: nat) -> char {
    if d < 10 {
        ((48 + d) as u8) as char
    } else {
        ((55 + d) as u8) as char
    }
}

/// The digits of `v` in upper-case hexadecimal, without leading zeros.
pub open spec fn hex_digits(v: nat) -> Seq<char>
    decreases v,
{
    if v < 16 {
        seq![hex_digit(v)]
    } else {
        hex_digits(v / 16).push(hex_digit(v % 16))
    }
}

/// `v` in upper-case hexadecimal, padded with zeros on the left to `width`
/// characters: what `format!("{:0width$X}", v)` gives.
pub open spec fn hex_text(v: nat, width: nat) -> Seq<char> {
    let d = hex_digits(v);
    if d.len() >= width {
        d
    } else {
        Seq::new((width - d.len()) as nat, |i: int| '0') + d
    }
}

/// `s` padded with spaces on the right to `width` characters: what
/// `format!("{:<width$}", s)` gives.
pub open spec fn left_aligned(s: Seq<char>, width: nat) -> Seq<char> {
    if s.len() >= width {
        s
    } else {
        s + Seq::new((width - s.len()) as nat, |i: int| ' ')
    }
}

/// `s` with every match of the non-empty `from`, taken from the left
/// without overlaps, replaced by `to`: what `str::replace` gives.
pub open spec fn replace_all(s: Seq<char>, from: Seq<char>, to: Seq<char>) -> Seq<char>
    decreases s.len(),
{
    if from.len() == 0 || s.len() < from.len() {
        s
    } else if s.subrange(0, from.len() as int) == from {
        to + replace_all(s.subrange(from.len() as int, s.len() as int), from, to)
    } else {
        seq![s[0]] + replace_all(s.subrange(1, s.len() as int), from, to)
    }
}

/// `format!("{:0width$X}", v)` of std, whose documentation gives the digits
/// and the zero padding that `hex_text` states. A width above 0xFFFF makes
/// the formatter panic, so it is left out.
#[verifier::external_body]
pub(crate) fn upper_hex(v: usize, width: usize) -> (s: String)
    requires
        width <= 0xFFFF,
    ensures
        s@ == hex_text(v as nat, width as nat),
{
    format!("{:0width$X}", v, width = width)
}

/// `format!("{:<width$}", s)` of std, whose documentation gives the space
/// padding on the right that `left_aligned` states. A width above 0xFFFF
/// makes the formatter panic, so it is left out.
#[verifier::external_body]
fn pad_right(s: &str, width: usize) -> (r: String)
    requires
        width <= 0xFFFF,
    ensures
        r@ == left_aligned(s@, width as nat),
{
    format!("{:<width$}", s, width = width)
}

/// `str::replace` of std, which its documentation says replaces all matches
/// of the pattern, as `replace_all` states.
#[verifier::external_body]
fn replace(s: &str, from: &str, to: &str) -> (r: String)
    requires
        from@.len() > 0,
    ensures
        r@ == replace_all(s@, from@, to@),
{
    s.replace(from, to)
}

/// The opcode bytes of a line: the opcode in hex, after "CB " when prefixed.
pub open spec fn opcode_text(code: u8, extended: bool) -> Seq<char> {
    if extended {
        "CB "@ + hex_text(code as nat, 2)
    } else {
        hex_text(code as nat, 2)
    }
}

/// The line for the instruction `op` at offset `idx` of `bytes`: offset,
/// bytes (padded to eight characters) and the text with the operand filled in.
pub open spec fn line_of(bytes: Seq<u8>, idx: int, op: OpCode) -> Seq<char> {
    let prefix = hex_text(idx as nat, 4) + ": "@;
    let code = opcode_text(op.code, op.extended);
    match op.argument_type {
        ArgumentType::Imm8 => {
            let v = bytes[idx + 1];
            prefix + left_aligned(code + " "@ + hex_text(v as nat, 2), 8) + " "@ + replace_all(
                op.mnemonic@,
                "{imm8}"@,
                "$"@ + hex_text(v as nat, 2),
            )
        },
        ArgumentType::Imm16 => {
            let w = le16(bytes[idx + 1], bytes[idx + 2]);
            prefix + left_aligned(
                code + " "@ + hex_text(w as nat % 256, 2) + " "@ + hex_text(w as nat / 256, 2),
                8,
            ) + " "@ + replace_all(op.mnemonic@, "{imm16}"@, "$"@ + hex_text(w as nat, 4))
        },
        _ => prefix + left_aligned(code, 8) + " "@ + op.mnemonic@,
    }
}

/// The bytes an instruction of kind `kind` takes.
pub open spec fn instruction_length(kind: ArgumentType) -> int {
    match kind {
        ArgumentType::Imm8 => 2,
        ArgumentType::Imm16 => 3,
        _ => 1,
    }
}

/// Whether the disassembly of `bytes` from `idx` on, after a 0xCB prefix when
/// `extended`, finds the operand of every instruction within the bytes.
pub open spec fn disassembly_ok(bytes: Seq<u8>, idx: int, extended: bool) -> bool
    decreases (if idx < bytes.len() {
        bytes.len() - idx
    } else {
        0
    }),
{
    if idx < 0 || idx >= bytes.len() {
        true
    } else if bytes[idx] == 0xCB {
        disassembly_ok(bytes, idx + 1, true)
    } else {
        match spec_opcode(bytes[idx], extended) {
            None => disassembly_ok(bytes, idx + 1, false),
            Some(op) => {
                &&& !(op.argument_type is Register || op.argument_type is Address)
                &&& idx + instruction_length(op.argument_type) <= bytes.len()
                &&& disassembly_ok(bytes, idx + instruction_length(op.argument_type), false)
            },
        }
    }
}

/// The lines of the disassembly of `bytes` from `idx` on: a 0xCB byte makes
/// the next byte a prefixed opcode (another 0xCB included); bytes that are
/// no opcode are skipped.
pub open spec fn disassembly(bytes: Seq<u8>, idx: int, extended: bool) -> Seq<Seq<char>>
    decreases (if idx < bytes.len() {
        bytes.len() - idx
    } else {
        0
    }),
{
    if idx < 0 || idx >= bytes.len() {
        seq![]
    } else if bytes[idx] == 0xCB {
        disassembly(bytes, idx + 1, true)
    } else {
        match spec_opcode(bytes[idx], extended) {
            None => disassembly(bytes, idx + 1, false),
            Some(op) => if op.argument_type is Register || op.argument_type is Address {
                seq![]
            } else {
                seq![line_of(bytes, idx, op)] + disassembly(
                    bytes,
                    idx + instruction_length(op.argument_type),
                    false,
                )
            },
        }
    }
}

/// The lines from an instruction on are its line and the lines after it.
proof fn lemma_lines_step(
    bytes: Seq<u8>,
    idx: int,
    extended: bool,
    op: OpCode,
    done: int,
    total: Seq<Seq<char>>,
)
    requires
        0 <= idx < bytes.len(),
        bytes[idx] != 0xCB,
        spec_opcode(bytes[idx], extended) == Some(op),
        !(op.argument_type is Register || op.argument_type is Address),
        0 <= done,
        done + disassembly(bytes, idx, extended).len() == total.len(),
        forall|i: int|
            0 <= i < disassembly(bytes, idx, extended).len() ==> #[trigger] disassembly(
                bytes,
                idx,
                extended,
            )[i] == total[done + i],
    ensures
        ({
            let rest = disassembly(bytes, idx + instruction_length(op.argument_type), false);
            &&& total[done] == line_of(bytes, idx, op)
            &&& done + 1 + rest.len() == total.len()
            &&& forall|i: int| 0 <= i < rest.len() ==> #[trigger] rest[i] == total[done + 1 + i]
        }),
{
    let here = disassembly(bytes, idx, extended);
    let rest = disassembly(bytes, idx + instruction_length(op.argument_type), false);
    assert(here == seq![line_of(bytes, idx, op)] + rest);
    assert(here[0] == total[done]);
    assert forall|i: int| 0 <= i < rest.len() implies #[trigger] rest[i] == total[done + 1 + i] by {
        assert(here[i + 1] == total[done + (i + 1)]);
    }
}

/// The line for `opcode` at `idx` of `bytecode`.
fn format_line(bytecode: &[u8], idx: usize, opcode: &OpCode) -> (line: String)
    requires
        idx + instruction_length(opcode.argument_type) <= bytecode@.len(),
        idx <= usize::MAX - 3,
    ensures
        line@ == line_of(bytecode@, idx as int, *opcode),
{
    let mut line = upper_hex(idx, 4);
    line.append(": ");
    let mut formatted_opcode = if opcode.extended {
        "CB ".to_owned()
    } else {
        String::new()
    };
    let code = upper_hex(opcode.code as usize, 2);
    formatted_opcode.append(code.as_str());
    match opcode.argument_type {
        ArgumentType::Imm8 => {
            let imm8 = bytecode[idx + 0x01];
            let digits = upper_hex(imm8 as usize, 2);
            let mut v = formatted_opcode;
            v.append(" ");
            v.append(digits.as_str());
            let mut value = "$".to_owned();
            value.append(digits.as_str());
            proof {
                reveal_strlit("{imm8}");
            }
            let text = replace(opcode.mnemonic, "{imm8}", value.as_str());
            let padded = pad_right(v.as_str(), 8);
            line.append(padded.as_str());
            line.append(" ");
            line.append(text.as_str());
        },
        ArgumentType::Imm16 => {
            let imm16 = le_read_u16(bytecode, idx + 0x01);
            let lo = upper_hex((imm16 & 0xFF) as usize, 2);
            let hi = upper_hex((imm16 >> 0x08) as usize, 2);
            proof {
                assert((imm16 & 0xFF) == imm16 % 256 && (imm16 >> 0x08) == imm16 / 256) by (bit_vector);
            }
            let mut v = formatted_opcode;
            v.append(" ");
            v.append(lo.as_str());
            v.append(" ");
            v.append(hi.as_str());
            let mut value = "$".to_owned();
            let digits = upper_hex(imm16 as usize, 4);
            value.append(digits.as_str());
            proof {
                reveal_strlit("{imm16}");
            }
            let text = replace(opcode.mnemonic, "{imm16}", value.as_str());
            let padded = pad_right(v.as_str(), 8);
            line.append(padded.as_str());
            line.append(" ");
            line.append(text.as_str());
        },
        _ => {
            let padded = pad_right(formatted_opcode.as_str(), 8);
            line.append(padded.as_str());
            line.append(" ");
            line.append(opcode.mnemonic);
        },
    }
    line
}

/// The lines of the disassembly of `bytecode`: for each instruction, its
/// offset, its bytes and its text with the operand filled in.
pub fn disassemble(bytecode: &[u8]) -> (result: Vec<String>)
    requires
        disassembly_ok(bytecode@, 0, false),
        bytecode@.len() <= usize::MAX - 3,
    ensures
        result@.len() == disassembly(bytecode@, 0, false).len(),
        forall|i: int|
            0 <= i < result@.len() ==> #[trigger] result@[i]@ == disassembly(bytecode@, 0, false)[i],
{
    let mut result: Vec<String> = Vec::new();
    let mut idx: usize = 0;
    let mut extended = false;
    let ghost total = disassembly(bytecode@, 0, false);
    while idx < bytecode.len()
        invariant
            idx <= bytecode@.len(),
            bytecode@.len() <= usize::MAX - 3,
            disassembly_ok(bytecode@, idx as int, extended),
            ({
                let done = result@.len();
                let rest = disassembly(bytecode@, idx as int, extended);
                &&& done + rest.len() == total.len()
                &&& forall|i: int| 0 <= i < done ==> #[trigger] result@[i]@ == total[i]
                &&& forall|i: int| 0 <= i < rest.len() ==> #[trigger] rest[i] == total[done + i]
            }),
        decreases bytecode@.len() - idx,
    {
        let b = bytecode[idx];
        if b == 0xCB {
            extended = true;
            idx += 0x01;
            continue;
        }
        if let Some(opcode) = OpCode::from_byte(b, extended) {
            proof {
                if !(opcode.argument_type is Register || opcode.argument_type is Address) {
                    lemma_lines_step(bytecode@, idx as int, extended, opcode, result@.len() as int, total);
                }
            }
            match opcode.argument_type {
                ArgumentType::Implied => {
                    result.push(format_line(bytecode, idx, &opcode));
                    idx += 0x01;
                },
                ArgumentType::Imm8 => {
                    result.push(format_line(bytecode, idx, &opcode));
                    idx += 0x02;
                },
                ArgumentType::Imm16 => {
                    result.push(format_line(bytecode, idx, &opcode));
                    idx += 0x03;
                },
                _ => (),
            }
        } else {
            idx += 0x01;
        }
        extended = false;
    }
    result
}

} // verus!
