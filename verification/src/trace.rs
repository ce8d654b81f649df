use vstd::prelude::*;
use crate::instruction::{Instruction, InstructionType};
use crate::registers::{BitSize, Reg};
use crate::host::{push_char, push_text};

verus! {

/// One place in the operand list of an instruction's text.
#[derive(Copy, Clone, Debug, PartialEq, Eq, Structural)]
pub enum RegOpts {
    Dst,
    A,
    B,
    C,
    D,
    E,
    F,
    Imm,
    /// Puts square brackets around the operand that follows.
    Brackets,
}

/// The operand list of an instruction of kind `ty`, for the form with an
/// immediate or the form without. A kind that has no such form has no
/// operands in it.
pub open spec fn operands_spec(ty: InstructionType, has_imm: bool) -> Seq<RegOpts> {
    match ty {
        InstructionType::Pr
        | InstructionType::Epr
        | InstructionType::Rdclk => if has_imm {
            Seq::empty()
        } else {
            seq![RegOpts::A, RegOpts::B]
        },
        InstructionType::Tme => if has_imm {
            seq![RegOpts::A, RegOpts::B, RegOpts::C, RegOpts::D]
        } else {
            Seq::empty()
        },
        InstructionType::Rdpc
        | InstructionType::Kbrd
        | InstructionType::Inc
        | InstructionType::Dec
        | InstructionType::Pop => if has_imm {
            Seq::empty()
        } else {
            seq![RegOpts::Dst]
        },
        InstructionType::Setgfx
        | InstructionType::Call => if has_imm {
            seq![RegOpts::Imm]
        } else {
            seq![RegOpts::A]
        },
        InstructionType::Slp => if has_imm {
            seq![RegOpts::Imm]
        } else {
            seq![RegOpts::A, RegOpts::B]
        },
        InstructionType::Ld
        | InstructionType::Ldw
        | InstructionType::Ldb
        | InstructionType::Pld
        | InstructionType::Pldw
        | InstructionType::Pldb => if has_imm {
            seq![RegOpts::Dst, RegOpts::Brackets, RegOpts::Imm]
        } else {
            seq![RegOpts::Dst, RegOpts::Brackets, RegOpts::A]
        },
        InstructionType::Str
        | InstructionType::Strw
        | InstructionType::Strb
        | InstructionType::Pstr
        | InstructionType::Pstrw
        | InstructionType::Pstrb => if has_imm {
            seq![RegOpts::Brackets, RegOpts::Dst, RegOpts::Imm]
        } else {
            seq![RegOpts::Brackets, RegOpts::Dst, RegOpts::A]
        },
        InstructionType::Nand
        | InstructionType::Or
        | InstructionType::And
        | InstructionType::Nor
        | InstructionType::Add
        | InstructionType::Sub
        | InstructionType::Xor
        | InstructionType::Lsl
        | InstructionType::Lsr
        | InstructionType::Mul
        | InstructionType::Imul
        | InstructionType::Div
        | InstructionType::Idiv
        | InstructionType::Rem
        | InstructionType::Irem
        | InstructionType::Se
        | InstructionType::Sne
        | InstructionType::Sl
        | InstructionType::Sle
        | InstructionType::Sg
        | InstructionType::Sge
        | InstructionType::Asr => if has_imm {
            seq![RegOpts::Dst, RegOpts::A, RegOpts::Imm]
        } else {
            seq![RegOpts::Dst, RegOpts::A, RegOpts::B]
        },
        InstructionType::Mov => if has_imm {
            seq![RegOpts::Dst, RegOpts::Imm]
        } else {
            seq![RegOpts::Dst, RegOpts::A]
        },
        InstructionType::Jmp => if has_imm {
            seq![RegOpts::Imm]
        } else {
            seq![RegOpts::Dst]
        },
        InstructionType::Je
        | InstructionType::Jne
        | InstructionType::Jl
        | InstructionType::Jge
        | InstructionType::Jle
        | InstructionType::Jg
        | InstructionType::Jb
        | InstructionType::Jae
        | InstructionType::Jbe
        | InstructionType::Ja => if has_imm {
            seq![RegOpts::A, RegOpts::B, RegOpts::Imm]
        } else {
            seq![RegOpts::A, RegOpts::B, RegOpts::Dst]
        },
        InstructionType::Push => if has_imm {
            Seq::empty()
        } else {
            seq![RegOpts::A]
        },
        _ => Seq::empty(),
    }
}

/// The operand list of an instruction of kind `ty`.
pub fn operands(ty: InstructionType, has_imm: bool) -> (ops: Vec<RegOpts>)
    ensures
        ops@ == operands_spec(ty, has_imm),
{
    match ty {
        InstructionType::Pr
        | InstructionType::Epr
        | InstructionType::Rdclk => if has_imm {
            Vec::new()
        } else {
            vec![RegOpts::A, RegOpts::B]
        },
        InstructionType::Tme => if has_imm {
            vec![RegOpts::A, RegOpts::B, RegOpts::C, RegOpts::D]
        } else {
            Vec::new()
        },
        InstructionType::Rdpc
        | InstructionType::Kbrd
        | InstructionType::Inc
        | InstructionType::Dec
        | InstructionType::Pop => if has_imm {
            Vec::new()
        } else {
            vec![RegOpts::Dst]
        },
        InstructionType::Setgfx
        | InstructionType::Call => if has_imm {
            vec![RegOpts::Imm]
        } else {
            vec![RegOpts::A]
        },
        InstructionType::Slp => if has_imm {
            vec![RegOpts::Imm]
        } else {
            vec![RegOpts::A, RegOpts::B]
        },
        InstructionType::Ld
        | InstructionType::Ldw
        | InstructionType::Ldb
        | InstructionType::Pld
        | InstructionType::Pldw
        | InstructionType::Pldb => if has_imm {
            vec![RegOpts::Dst, RegOpts::Brackets, RegOpts::Imm]
        } else {
            vec![RegOpts::Dst, RegOpts::Brackets, RegOpts::A]
        },
        InstructionType::Str
        | InstructionType::Strw
        | InstructionType::Strb
        | InstructionType::Pstr
        | InstructionType::Pstrw
        | InstructionType::Pstrb => if has_imm {
            vec![RegOpts::Brackets, RegOpts::Dst, RegOpts::Imm]
        } else {
            vec![RegOpts::Brackets, RegOpts::Dst, RegOpts::A]
        },
        InstructionType::Nand
        | InstructionType::Or
        | InstructionType::And
        | InstructionType::Nor
        | InstructionType::Add
        | InstructionType::Sub
        | InstructionType::Xor
        | InstructionType::Lsl
        | InstructionType::Lsr
        | InstructionType::Mul
        | InstructionType::Imul
        | InstructionType::Div
        | InstructionType::Idiv
        | InstructionType::Rem
        | InstructionType::Irem
        | InstructionType::Se
        | InstructionType::Sne
        | InstructionType::Sl
        | InstructionType::Sle
        | InstructionType::Sg
        | InstructionType::Sge
        | InstructionType::Asr => if has_imm {
            vec![RegOpts::Dst, RegOpts::A, RegOpts::Imm]
        } else {
            vec![RegOpts::Dst, RegOpts::A, RegOpts::B]
        },
        InstructionType::Mov => if has_imm {
            vec![RegOpts::Dst, RegOpts::Imm]
        } else {
            vec![RegOpts::Dst, RegOpts::A]
        },
        InstructionType::Jmp => if has_imm {
            vec![RegOpts::Imm]
        } else {
            vec![RegOpts::Dst]
        },
        InstructionType::Je
        | InstructionType::Jne
        | InstructionType::Jl
        | InstructionType::Jge
        | InstructionType::Jle
        | InstructionType::Jg
        | InstructionType::Jb
        | InstructionType::Jae
        | InstructionType::Jbe
        | InstructionType::Ja => if has_imm {
            vec![RegOpts::A, RegOpts::B, RegOpts::Imm]
        } else {
            vec![RegOpts::A, RegOpts::B, RegOpts::Dst]
        },
        InstructionType::Push => if has_imm {
            Vec::new()
        } else {
            vec![RegOpts::A]
        },
        _ => Vec::new(),
    }
}

/// The lower-case hexadecimal digit of a value below 16.
pub open spec fn hex_digit(n: int) -> char {
    if n == 0 {
        '0'
    } else if n == 1 {
        '1'
    } else if n == 2 {
        '2'
    } else if n == 3 {
        '3'
    } else if n == 4 {
        '4'
    } else if n == 5 {
        '5'
    } else if n == 6 {
        '6'
    } else if n == 7 {
        '7'
    } else if n == 8 {
        '8'
    } else if n == 9 {
        '9'
    } else if n == 10 {
        'a'
    } else if n == 11 {
        'b'
    } else if n == 12 {
        'c'
    } else if n == 13 {
        'd'
    } else if n == 14 {
        'e'
    } else {
        'f'
    }
}

/// The hexadecimal digit of `v` at place `i`, place 0 being the highest of
/// the eight.
pub open spec fn nibble(v: BitSize, i: int) -> int {
    if i == 0 {
        v as int / 0x1000_0000 % 16
    } else if i == 1 {
        v as int / 0x100_0000 % 16
    } else if i == 2 {
        v as int / 0x10_0000 % 16
    } else if i == 3 {
        v as int / 0x1_0000 % 16
    } else if i == 4 {
        v as int / 0x1000 % 16
    } else if i == 5 {
        v as int / 0x100 % 16
    } else if i == 6 {
        v as int / 0x10 % 16
    } else {
        v as int % 16
    }
}

/// A word as text: `0x` and eight lower-case hexadecimal digits.
pub open spec fn word_text(v: BitSize) -> Seq<char> {
    "0x"@ + Seq::new(8, |i: int| hex_digit(nibble(v, i)))
}

/// The register that the low five bits of `value` name.
pub open spec fn reg_of_word(value: BitSize) -> Reg {
    Reg::of_index((value % 32) as int)
}

/// The text of the operand at place `op`, which is no bracket mark: a
/// register's name, or the immediate as a word. The places `C` to `F`
/// name registers by the bytes of the immediate, highest byte first.
pub open spec fn operand_text(inst: Instruction, op: RegOpts) -> Seq<char> {
    match op {
        RegOpts::Dst => inst.dst.name_spec(),
        RegOpts::A => inst.a.name_spec(),
        RegOpts::B => inst.b.name_spec(),
        RegOpts::C => reg_of_word(inst.imm / 0x100_0000).name_spec(),
        RegOpts::D => reg_of_word(inst.imm / 0x1_0000).name_spec(),
        RegOpts::E => reg_of_word(inst.imm / 0x100).name_spec(),
        RegOpts::F => reg_of_word(inst.imm).name_spec(),
        _ => word_text(inst.imm),
    }
}

/// An operand with what stands before it: a space before the first
/// operand and a comma and a space before each other one, and square
/// brackets around it where a bracket mark went before.
pub open spec fn dressed(text: Seq<char>, first: bool, bracket: bool) -> Seq<char> {
    (if first { " "@ } else { ", "@ }) + (if bracket { "["@ + text + "]"@ } else { text })
}

/// The text of the operands of `ops` from place `k` on, where `printed`
/// operands stand before it and `bracket` says whether a bracket mark
/// stands just before it.
pub open spec fn operands_text(
    inst: Instruction,
    ops: Seq<RegOpts>,
    k: int,
    printed: nat,
    bracket: bool,
) -> Seq<char>
    decreases ops.len() - k,
{
    if k < 0 || k >= ops.len() {
        Seq::empty()
    } else if ops[k] == RegOpts::Brackets {
        operands_text(inst, ops, k + 1, printed, true)
    } else {
        dressed(operand_text(inst, ops[k]), printed == 0, bracket) + operands_text(
            inst,
            ops,
            k + 1,
            printed + 1,
            false,
        )
    }
}

/// The text of an instruction: its mnemonic and its operands.
pub open spec fn instruction_text(inst: Instruction) -> Seq<char> {
    inst.ty.mnemonic_spec() + operands_text(
        inst,
        operands_spec(inst.ty, inst.has_imm),
        0,
        0,
        false,
    )
}

/// The line that the tracer writes for the instruction `inst` at `pc`.
pub open spec fn trace_text(pc: BitSize, inst: Instruction) -> Seq<char> {
    word_text(pc) + ": "@ + instruction_text(inst)
}

/// The lower-case hexadecimal digit of `n`.
fn digit_char(n: BitSize) -> (c: char)
    requires
        n < 16,
    ensures
        c == hex_digit(n as int),
{
    match n {
        0 => '0',
        1 => '1',
        2 => '2',
        3 => '3',
        4 => '4',
        5 => '5',
        6 => '6',
        7 => '7',
        8 => '8',
        9 => '9',
        10 => 'a',
        11 => 'b',
        12 => 'c',
        13 => 'd',
        14 => 'e',
        _ => 'f',
    }
}

/// Appends `v` as a word to `out`.
fn push_word_text(out: &mut String, v: BitSize)
    ensures
        final(out)@ == old(out)@ + word_text(v),
{
    assert((v >> 28) & 0xf == v / 0x1000_0000 % 16 && (v >> 24) & 0xf == v / 0x100_0000 % 16 && (v
        >> 20) & 0xf == v / 0x10_0000 % 16 && (v >> 16) & 0xf == v / 0x1_0000 % 16 && (v >> 12)
        & 0xf == v / 0x1000 % 16 && (v >> 8) & 0xf == v / 0x100 % 16 && (v >> 4) & 0xf == v / 0x10
        % 16 && v & 0xf == v % 16) by (bit_vector);
    push_text(out, "0x");
    push_char(out, digit_char((v >> 28) & 0xf));
    push_char(out, digit_char((v >> 24) & 0xf));
    push_char(out, digit_char((v >> 20) & 0xf));
    push_char(out, digit_char((v >> 16) & 0xf));
    push_char(out, digit_char((v >> 12) & 0xf));
    push_char(out, digit_char((v >> 8) & 0xf));
    push_char(out, digit_char((v >> 4) & 0xf));
    push_char(out, digit_char(v & 0xf));
    assert(out@ =~= old(out)@ + word_text(v));
}

/// The register that the low five bits of `value` name.
fn word_reg(value: BitSize) -> (r: Reg)
    ensures
        r == reg_of_word(value),
{
    assert(value & 0x1f == value % 32 && (value & 0x1f) < 32) by (bit_vector);
    let low: u8 = (value & 0x1f) as u8;
    assert(low & 0x1f == low) by (bit_vector)
        requires
            low < 32,
    ;
    Reg::from_low_bits(low)
}

/// The text of the operand at place `op`.
fn operand_string(inst: &Instruction, op: RegOpts) -> (s: String)
    requires
        op != RegOpts::Brackets,
    ensures
        s@ == operand_text(*inst, op),
{
    let imm: BitSize = inst.imm;
    assert(imm >> 24 == imm / 0x100_0000 && imm >> 16 == imm / 0x1_0000 && imm >> 8 == imm / 0x100)
        by (bit_vector);
    let mut s = String::new();
    assert(s@ =~= Seq::<char>::empty());
    match op {
        RegOpts::Imm => {
            push_word_text(&mut s, imm);
            assert(s@ =~= word_text(imm));
        },
        _ => {
            let reg = match op {
                RegOpts::Dst => inst.dst,
                RegOpts::A => inst.a,
                RegOpts::B => inst.b,
                RegOpts::C => word_reg(imm >> 24),
                RegOpts::D => word_reg(imm >> 16),
                RegOpts::E => word_reg(imm >> 8),
                _ => word_reg(imm),
            };
            push_text(&mut s, reg.name());
            assert(s@ =~= reg.name_spec());
        },
    }
    s
}

/// Appends an operand's text to `out`, dressed.
fn push_dressed(out: &mut String, text: &str, first: bool, bracket: bool)
    ensures
        final(out)@ == old(out)@ + dressed(text@, first, bracket),
{
    if first {
        push_text(out, " ");
    } else {
        push_text(out, ", ");
    }
    if bracket {
        push_text(out, "[");
    }
    push_text(out, text);
    if bracket {
        push_text(out, "]");
    }
    assert(out@ =~= old(out)@ + dressed(text@, first, bracket));
}

impl Instruction {
    /// The text of this instruction: its mnemonic and its operands, as the
    /// tracer prints them.
    #[verifier::rlimit(30)]
    pub fn to_text(&self) -> (s: String)
        ensures
            s@ == instruction_text(*self),
    {
        let ops = operands(self.ty, self.has_imm);
        let mut out = String::new();
        push_text(&mut out, self.ty.mnemonic());
        let mut k: usize = 0;
        let mut printed: usize = 0;
        let mut bracket = false;
        while k < ops.len()
            invariant
                k <= ops@.len(),
                printed <= k,
                ops@ == operands_spec(self.ty, self.has_imm),
                out@ + operands_text(*self, ops@, k as int, printed as nat, bracket)
                    == instruction_text(*self),
            decreases ops@.len() - k,
        {
            let op = ops[k];
            let ghost before = out@;
            match op {
                RegOpts::Brackets => {
                    bracket = true;
                },
                _ => {
                    let text = operand_string(self, op);
                    push_dressed(&mut out, text.as_str(), printed == 0, bracket);
                    assert(out@ + operands_text(
                        *self,
                        ops@,
                        k + 1,
                        (printed + 1) as nat,
                        false,
                    ) =~= before + operands_text(*self, ops@, k as int, printed as nat, bracket));
                    printed += 1;
                    bracket = false;
                },
            }
            k += 1;
        }
        assert(out@ + Seq::<char>::empty() =~= out@);
        out
    }
}

/// The line that the tracer writes for the instruction `inst` at `pc`:
/// the program counter as a word, a colon and a space, and the text of the
/// instruction.
pub fn trace_line(pc: BitSize, inst: &Instruction) -> (s: String)
    ensures
        s@ == trace_text(pc, *inst),
{
    let mut out = String::new();
    push_word_text(&mut out, pc);
    push_text(&mut out, ": ");
    let text = inst.to_text();
    push_text(&mut out, text.as_str());
    assert(out@ =~= trace_text(pc, *inst));
    out
}

} // verus!
