use vstd::prelude::*;
use crate::registers::{BitSize, Reg, lemma_reg_of_index};

verus! {

/// Why a byte buffer is not an instruction.
#[derive(Copy, Clone, Debug, PartialEq, Eq, Structural)]
pub enum InstError {
    /// No instruction has this (mode, opcode) pair.
    UnknownInstruction(u8, u8),
    /// The buffer holds this many bytes, fewer than the encoding needs.
    WrongSize(usize),
}

/// The kind of an instruction, one per assigned (mode, opcode) pair.
#[derive(Copy, Clone, Debug, PartialEq, Eq, Structural)]
pub enum InstructionType {
    Nop,
    Hlt,
    Pr,
    Epr,
    Tme,
    Rdpc,
    Kbrd,
    Setgfx,
    Draw,
    Slp,
    Rdclk,
    Ld,
    Ldw,
    Ldb,
    Pld,
    Pldw,
    Pldb,
    Str,
    Strw,
    Strb,
    Pstr,
    Pstrw,
    Pstrb,
    Nand,
    Or,
    And,
    Nor,
    Add,
    Sub,
    Xor,
    Lsl,
    Lsr,
    Mul,
    Imul,
    Div,
    Idiv,
    Rem,
    Irem,
    Mov,
    Inc,
    Dec,
    Se,
    Sne,
    Sl,
    Sle,
    Sg,
    Sge,
    Asr,
    Jmp,
    Je,
    Jne,
    Jl,
    Jge,
    Jle,
    Jg,
    Jb,
    Jae,
    Jbe,
    Ja,
    Push,
    Pop,
    Call,
    Ret,
}

impl InstructionType {
    /// The mode of this kind: the two high bits of the first byte.
    pub open spec fn mode_spec(self) -> u8 {
        match self {
            InstructionType::Nop => 0,
            InstructionType::Hlt => 0,
            InstructionType::Pr => 0,
            InstructionType::Epr => 0,
            InstructionType::Tme => 0,
            InstructionType::Rdpc => 0,
            InstructionType::Kbrd => 0,
            InstructionType::Setgfx => 0,
            InstructionType::Draw => 0,
            InstructionType::Slp => 0,
            InstructionType::Rdclk => 0,
            InstructionType::Ld => 0,
            InstructionType::Ldw => 0,
            InstructionType::Ldb => 0,
            InstructionType::Pld => 0,
            InstructionType::Pldw => 0,
            InstructionType::Pldb => 0,
            InstructionType::Str => 0,
            InstructionType::Strw => 0,
            InstructionType::Strb => 0,
            InstructionType::Pstr => 0,
            InstructionType::Pstrw => 0,
            InstructionType::Pstrb => 0,
            InstructionType::Nand => 1,
            InstructionType::Or => 1,
            InstructionType::And => 1,
            InstructionType::Nor => 1,
            InstructionType::Add => 1,
            InstructionType::Sub => 1,
            InstructionType::Xor => 1,
            InstructionType::Lsl => 1,
            InstructionType::Lsr => 1,
            InstructionType::Mul => 1,
            InstructionType::Imul => 1,
            InstructionType::Div => 1,
            InstructionType::Idiv => 1,
            InstructionType::Rem => 1,
            InstructionType::Irem => 1,
            InstructionType::Mov => 1,
            InstructionType::Inc => 1,
            InstructionType::Dec => 1,
            InstructionType::Se => 1,
            InstructionType::Sne => 1,
            InstructionType::Sl => 1,
            InstructionType::Sle => 1,
            InstructionType::Sg => 1,
            InstructionType::Sge => 1,
            InstructionType::Asr => 1,
            InstructionType::Jmp => 2,
            InstructionType::Je => 2,
            InstructionType::Jne => 2,
            InstructionType::Jl => 2,
            InstructionType::Jge => 2,
            InstructionType::Jle => 2,
            InstructionType::Jg => 2,
            InstructionType::Jb => 2,
            InstructionType::Jae => 2,
            InstructionType::Jbe => 2,
            InstructionType::Ja => 2,
            InstructionType::Push => 3,
            InstructionType::Pop => 3,
            InstructionType::Call => 3,
            InstructionType::Ret => 3,
        }
    }

    /// The opcode of this kind: the second byte.
    pub open spec fn opcode_spec(self) -> u8 {
        match self {
            InstructionType::Nop => 0x0,
            InstructionType::Hlt => 0x1,
            InstructionType::Pr => 0x2,
            InstructionType::Epr => 0x3,
            InstructionType::Tme => 0x4,
            InstructionType::Rdpc => 0x5,
            InstructionType::Kbrd => 0x6,
            InstructionType::Setgfx => 0x7,
            InstructionType::Draw => 0x8,
            InstructionType::Slp => 0x9,
            InstructionType::Rdclk => 0xa,
            InstructionType::Ld => 0x20,
            InstructionType::Ldw => 0x21,
            InstructionType::Ldb => 0x22,
            InstructionType::Pld => 0x23,
            InstructionType::Pldw => 0x24,
            InstructionType::Pldb => 0x25,
            InstructionType::Str => 0x26,
            InstructionType::Strw => 0x27,
            InstructionType::Strb => 0x28,
            InstructionType::Pstr => 0x29,
            InstructionType::Pstrw => 0x2a,
            InstructionType::Pstrb => 0x2b,
            InstructionType::Nand => 0x0,
            InstructionType::Or => 0x1,
            InstructionType::And => 0x2,
            InstructionType::Nor => 0x3,
            InstructionType::Add => 0x4,
            InstructionType::Sub => 0x5,
            InstructionType::Xor => 0x6,
            InstructionType::Lsl => 0x7,
            InstructionType::Lsr => 0x8,
            InstructionType::Mul => 0x9,
            InstructionType::Imul => 0xa,
            InstructionType::Div => 0xb,
            InstructionType::Idiv => 0xc,
            InstructionType::Rem => 0xd,
            InstructionType::Irem => 0xe,
            InstructionType::Mov => 0xf,
            InstructionType::Inc => 0x10,
            InstructionType::Dec => 0x11,
            InstructionType::Se => 0x12,
            InstructionType::Sne => 0x13,
            InstructionType::Sl => 0x14,
            InstructionType::Sle => 0x15,
            InstructionType::Sg => 0x16,
            InstructionType::Sge => 0x17,
            InstructionType::Asr => 0x18,
            InstructionType::Jmp => 0x0,
            InstructionType::Je => 0x1,
            InstructionType::Jne => 0x2,
            InstructionType::Jl => 0x3,
            InstructionType::Jge => 0x4,
            InstructionType::Jle => 0x5,
            InstructionType::Jg => 0x6,
            InstructionType::Jb => 0x7,
            InstructionType::Jae => 0x8,
            InstructionType::Jbe => 0x9,
            InstructionType::Ja => 0xa,
            InstructionType::Push => 0x0,
            InstructionType::Pop => 0x1,
            InstructionType::Call => 0x2,
            InstructionType::Ret => 0x3,
        }
    }

    /// The kind that the pair (mode, opcode) is assigned to, if any.
    pub open spec fn of_pair(mode: u8, opcode: u8) -> Option<InstructionType> {
        if mode == 0 && opcode == 0x0 {
            Some(InstructionType::Nop)
        } else if mode == 0 && opcode == 0x1 {
            Some(InstructionType::Hlt)
        } else if mode == 0 && opcode == 0x2 {
            Some(InstructionType::Pr)
        } else if mode == 0 && opcode == 0x3 {
            Some(InstructionType::Epr)
        } else if mode == 0 && opcode == 0x4 {
            Some(InstructionType::Tme)
        } else if mode == 0 && opcode == 0x5 {
            Some(InstructionType::Rdpc)
        } else if mode == 0 && opcode == 0x6 {
            Some(InstructionType::Kbrd)
        } else if mode == 0 && opcode == 0x7 {
            Some(InstructionType::Setgfx)
        } else if mode == 0 && opcode == 0x8 {
            Some(InstructionType::Draw)
        } else if mode == 0 && opcode == 0x9 {
            Some(InstructionType::Slp)
        } else if mode == 0 && opcode == 0xa {
            Some(InstructionType::Rdclk)
        } else if mode == 0 && opcode == 0x20 {
            Some(InstructionType::Ld)
        } else if mode == 0 && opcode == 0x21 {
            Some(InstructionType::Ldw)
        } else if mode == 0 && opcode == 0x22 {
            Some(InstructionType::Ldb)
        } else if mode == 0 && opcode == 0x23 {
            Some(InstructionType::Pld)
        } else if mode == 0 && opcode == 0x24 {
            Some(InstructionType::Pldw)
        } else if mode == 0 && opcode == 0x25 {
            Some(InstructionType::Pldb)
        } else if mode == 0 && opcode == 0x26 {
            Some(InstructionType::Str)
        } else if mode == 0 && opcode == 0x27 {
            Some(InstructionType::Strw)
        } else if mode == 0 && opcode == 0x28 {
            Some(InstructionType::Strb)
        } else if mode == 0 && opcode == 0x29 {
            Some(InstructionType::Pstr)
        } else if mode == 0 && opcode == 0x2a {
            Some(InstructionType::Pstrw)
        } else if mode == 0 && opcode == 0x2b {
            Some(InstructionType::Pstrb)
        } else if mode == 1 && opcode == 0x0 {
            Some(InstructionType::Nand)
        } else if mode == 1 && opcode == 0x1 {
            Some(InstructionType::Or)
        } else if mode == 1 && opcode == 0x2 {
            Some(InstructionType::And)
        } else if mode == 1 && opcode == 0x3 {
            Some(InstructionType::Nor)
        } else if mode == 1 && opcode == 0x4 {
            Some(InstructionType::Add)
        } else if mode == 1 && opcode == 0x5 {
            Some(InstructionType::Sub)
        } else if mode == 1 && opcode == 0x6 {
            Some(InstructionType::Xor)
        } else if mode == 1 && opcode == 0x7 {
            Some(InstructionType::Lsl)
        } else if mode == 1 && opcode == 0x8 {
            Some(InstructionType::Lsr)
        } else if mode == 1 && opcode == 0x9 {
            Some(InstructionType::Mul)
        } else if mode == 1 && opcode == 0xa {
            Some(InstructionType::Imul)
        } else if mode == 1 && opcode == 0xb {
            Some(InstructionType::Div)
        } else if mode == 1 && opcode == 0xc {
            Some(InstructionType::Idiv)
        } else if mode == 1 && opcode == 0xd {
            Some(InstructionType::Rem)
        } else if mode == 1 && opcode == 0xe {
            Some(InstructionType::Irem)
        } else if mode == 1 && opcode == 0xf {
            Some(InstructionType::Mov)
        } else if mode == 1 && opcode == 0x10 {
            Some(InstructionType::Inc)
        } else if mode == 1 && opcode == 0x11 {
            Some(InstructionType::Dec)
        } else if mode == 1 && opcode == 0x12 {
            Some(InstructionType::Se)
        } else if mode == 1 && opcode == 0x13 {
            Some(InstructionType::Sne)
        } else if mode == 1 && opcode == 0x14 {
            Some(InstructionType::Sl)
        } else if mode == 1 && opcode == 0x15 {
            Some(InstructionType::Sle)
        } else if mode == 1 && opcode == 0x16 {
            Some(InstructionType::Sg)
        } else if mode == 1 && opcode == 0x17 {
            Some(InstructionType::Sge)
        } else if mode == 1 && opcode == 0x18 {
            Some(InstructionType::Asr)
        } else if mode == 2 && opcode == 0x0 {
            Some(InstructionType::Jmp)
        } else if mode == 2 && opcode == 0x1 {
            Some(InstructionType::Je)
        } else if mode == 2 && opcode == 0x2 {
            Some(InstructionType::Jne)
        } else if mode == 2 && opcode == 0x3 {
            Some(InstructionType::Jl)
        } else if mode == 2 && opcode == 0x4 {
            Some(InstructionType::Jge)
        } else if mode == 2 && opcode == 0x5 {
            Some(InstructionType::Jle)
        } else if mode == 2 && opcode == 0x6 {
            Some(InstructionType::Jg)
        } else if mode == 2 && opcode == 0x7 {
            Some(InstructionType::Jb)
        } else if mode == 2 && opcode == 0x8 {
            Some(InstructionType::Jae)
        } else if mode == 2 && opcode == 0x9 {
            Some(InstructionType::Jbe)
        } else if mode == 2 && opcode == 0xa {
            Some(InstructionType::Ja)
        } else if mode == 3 && opcode == 0x0 {
            Some(InstructionType::Push)
        } else if mode == 3 && opcode == 0x1 {
            Some(InstructionType::Pop)
        } else if mode == 3 && opcode == 0x2 {
            Some(InstructionType::Call)
        } else if mode == 3 && opcode == 0x3 {
            Some(InstructionType::Ret)
        } else {
            None
        }
    }

    /// The mode of this kind.
    pub fn mode(self) -> (m: u8)
        ensures
            m == self.mode_spec(),
            m < 4,
    {
        match self {
            InstructionType::Nop => 0,
            InstructionType::Hlt => 0,
            InstructionType::Pr => 0,
            InstructionType::Epr => 0,
            InstructionType::Tme => 0,
            InstructionType::Rdpc => 0,
            InstructionType::Kbrd => 0,
            InstructionType::Setgfx => 0,
            InstructionType::Draw => 0,
            InstructionType::Slp => 0,
            InstructionType::Rdclk => 0,
            InstructionType::Ld => 0,
            InstructionType::Ldw => 0,
            InstructionType::Ldb => 0,
            InstructionType::Pld => 0,
            InstructionType::Pldw => 0,
            InstructionType::Pldb => 0,
            InstructionType::Str => 0,
            InstructionType::Strw => 0,
            InstructionType::Strb => 0,
            InstructionType::Pstr => 0,
            InstructionType::Pstrw => 0,
            InstructionType::Pstrb => 0,
            InstructionType::Nand => 1,
            InstructionType::Or => 1,
            InstructionType::And => 1,
            InstructionType::Nor => 1,
            InstructionType::Add => 1,
            InstructionType::Sub => 1,
            InstructionType::Xor => 1,
            InstructionType::Lsl => 1,
            InstructionType::Lsr => 1,
            InstructionType::Mul => 1,
            InstructionType::Imul => 1,
            InstructionType::Div => 1,
            InstructionType::Idiv => 1,
            InstructionType::Rem => 1,
            InstructionType::Irem => 1,
            InstructionType::Mov => 1,
            InstructionType::Inc => 1,
            InstructionType::Dec => 1,
            InstructionType::Se => 1,
            InstructionType::Sne => 1,
            InstructionType::Sl => 1,
            InstructionType::Sle => 1,
            InstructionType::Sg => 1,
            InstructionType::Sge => 1,
            InstructionType::Asr => 1,
            InstructionType::Jmp => 2,
            InstructionType::Je => 2,
            InstructionType::Jne => 2,
            InstructionType::Jl => 2,
            InstructionType::Jge => 2,
            InstructionType::Jle => 2,
            InstructionType::Jg => 2,
            InstructionType::Jb => 2,
            InstructionType::Jae => 2,
            InstructionType::Jbe => 2,
            InstructionType::Ja => 2,
            InstructionType::Push => 3,
            InstructionType::Pop => 3,
            InstructionType::Call => 3,
            InstructionType::Ret => 3,
        }
    }

    /// The opcode of this kind.
    pub fn opcode(self) -> (op: u8)
        ensures
            op == self.opcode_spec(),
    {
        match self {
            InstructionType::Nop => 0x0,
            InstructionType::Hlt => 0x1,
            InstructionType::Pr => 0x2,
            InstructionType::Epr => 0x3,
            InstructionType::Tme => 0x4,
            InstructionType::Rdpc => 0x5,
            InstructionType::Kbrd => 0x6,
            InstructionType::Setgfx => 0x7,
            InstructionType::Draw => 0x8,
            InstructionType::Slp => 0x9,
            InstructionType::Rdclk => 0xa,
            InstructionType::Ld => 0x20,
            InstructionType::Ldw => 0x21,
            InstructionType::Ldb => 0x22,
            InstructionType::Pld => 0x23,
            InstructionType::Pldw => 0x24,
            InstructionType::Pldb => 0x25,
            InstructionType::Str => 0x26,
            InstructionType::Strw => 0x27,
            InstructionType::Strb => 0x28,
            InstructionType::Pstr => 0x29,
            InstructionType::Pstrw => 0x2a,
            InstructionType::Pstrb => 0x2b,
            InstructionType::Nand => 0x0,
            InstructionType::Or => 0x1,
            InstructionType::And => 0x2,
            InstructionType::Nor => 0x3,
            InstructionType::Add => 0x4,
            InstructionType::Sub => 0x5,
            InstructionType::Xor => 0x6,
            InstructionType::Lsl => 0x7,
            InstructionType::Lsr => 0x8,
            InstructionType::Mul => 0x9,
            InstructionType::Imul => 0xa,
            InstructionType::Div => 0xb,
            InstructionType::Idiv => 0xc,
            InstructionType::Rem => 0xd,
            InstructionType::Irem => 0xe,
            InstructionType::Mov => 0xf,
            InstructionType::Inc => 0x10,
            InstructionType::Dec => 0x11,
            InstructionType::Se => 0x12,
            InstructionType::Sne => 0x13,
            InstructionType::Sl => 0x14,
            InstructionType::Sle => 0x15,
            InstructionType::Sg => 0x16,
            InstructionType::Sge => 0x17,
            InstructionType::Asr => 0x18,
            InstructionType::Jmp => 0x0,
            InstructionType::Je => 0x1,
            InstructionType::Jne => 0x2,
            InstructionType::Jl => 0x3,
            InstructionType::Jge => 0x4,
            InstructionType::Jle => 0x5,
            InstructionType::Jg => 0x6,
            InstructionType::Jb => 0x7,
            InstructionType::Jae => 0x8,
            InstructionType::Jbe => 0x9,
            InstructionType::Ja => 0xa,
            InstructionType::Push => 0x0,
            InstructionType::Pop => 0x1,
            InstructionType::Call => 0x2,
            InstructionType::Ret => 0x3,
        }
    }

    /// The kind that the pair (mode, opcode) is assigned to, if any.
    pub fn try_from(mode: u8, opcode: u8) -> (ty: Option<InstructionType>)
        ensures
            ty == InstructionType::of_pair(mode, opcode),
    {
        let val = match (mode, opcode) {
            (0, 0x0) => InstructionType::Nop,
            (0, 0x1) => InstructionType::Hlt,
            (0, 0x2) => InstructionType::Pr,
            (0, 0x3) => InstructionType::Epr,
            (0, 0x4) => InstructionType::Tme,
            (0, 0x5) => InstructionType::Rdpc,
            (0, 0x6) => InstructionType::Kbrd,
            (0, 0x7) => InstructionType::Setgfx,
            (0, 0x8) => InstructionType::Draw,
            (0, 0x9) => InstructionType::Slp,
            (0, 0xa) => InstructionType::Rdclk,
            (0, 0x20) => InstructionType::Ld,
            (0, 0x21) => InstructionType::Ldw,
            (0, 0x22) => InstructionType::Ldb,
            (0, 0x23) => InstructionType::Pld,
            (0, 0x24) => InstructionType::Pldw,
            (0, 0x25) => InstructionType::Pldb,
            (0, 0x26) => InstructionType::Str,
            (0, 0x27) => InstructionType::Strw,
            (0, 0x28) => InstructionType::Strb,
            (0, 0x29) => InstructionType::Pstr,
            (0, 0x2a) => InstructionType::Pstrw,
            (0, 0x2b) => InstructionType::Pstrb,
            (1, 0x0) => InstructionType::Nand,
            (1, 0x1) => InstructionType::Or,
            (1, 0x2) => InstructionType::And,
            (1, 0x3) => InstructionType::Nor,
            (1, 0x4) => InstructionType::Add,
            (1, 0x5) => InstructionType::Sub,
            (1, 0x6) => InstructionType::Xor,
            (1, 0x7) => InstructionType::Lsl,
            (1, 0x8) => InstructionType::Lsr,
            (1, 0x9) => InstructionType::Mul,
            (1, 0xa) => InstructionType::Imul,
            (1, 0xb) => InstructionType::Div,
            (1, 0xc) => InstructionType::Idiv,
            (1, 0xd) => InstructionType::Rem,
            (1, 0xe) => InstructionType::Irem,
            (1, 0xf) => InstructionType::Mov,
            (1, 0x10) => InstructionType::Inc,
            (1, 0x11) => InstructionType::Dec,
            (1, 0x12) => InstructionType::Se,
            (1, 0x13) => InstructionType::Sne,
            (1, 0x14) => InstructionType::Sl,
            (1, 0x15) => InstructionType::Sle,
            (1, 0x16) => InstructionType::Sg,
            (1, 0x17) => InstructionType::Sge,
            (1, 0x18) => InstructionType::Asr,
            (2, 0x0) => InstructionType::Jmp,
            (2, 0x1) => InstructionType::Je,
            (2, 0x2) => InstructionType::Jne,
            (2, 0x3) => InstructionType::Jl,
            (2, 0x4) => InstructionType::Jge,
            (2, 0x5) => InstructionType::Jle,
            (2, 0x6) => InstructionType::Jg,
            (2, 0x7) => InstructionType::Jb,
            (2, 0x8) => InstructionType::Jae,
            (2, 0x9) => InstructionType::Jbe,
            (2, 0xa) => InstructionType::Ja,
            (3, 0x0) => InstructionType::Push,
            (3, 0x1) => InstructionType::Pop,
            (3, 0x2) => InstructionType::Call,
            (3, 0x3) => InstructionType::Ret,
            _ => {
                return None;
            },
        };
        Some(val)
    }

    /// The mnemonic of this kind, as the tracer prints it.
    pub open spec fn mnemonic_spec(self) -> Seq<char> {
        match self {
            InstructionType::Nop => "nop"@,
            InstructionType::Hlt => "hlt"@,
            InstructionType::Pr => "pr"@,
            InstructionType::Epr => "epr"@,
            InstructionType::Tme => "tme"@,
            InstructionType::Rdpc => "rdpc"@,
            InstructionType::Kbrd => "kbrd"@,
            InstructionType::Setgfx => "setgfx"@,
            InstructionType::Draw => "draw"@,
            InstructionType::Slp => "slp"@,
            InstructionType::Rdclk => "rdclk"@,
            InstructionType::Ld => "ld"@,
            InstructionType::Ldw => "ld.w"@,
            InstructionType::Ldb => "ld.b"@,
            InstructionType::Pld => "pld"@,
            InstructionType::Pldw => "pld.w"@,
            InstructionType::Pldb => "pld.b"@,
            InstructionType::Str => "str"@,
            InstructionType::Strw => "str.w"@,
            InstructionType::Strb => "str.b"@,
            InstructionType::Pstr => "pstr"@,
            InstructionType::Pstrw => "pstr.w"@,
            InstructionType::Pstrb => "pstr.b"@,
            InstructionType::Nand => "nand"@,
            InstructionType::Or => "or"@,
            InstructionType::And => "and"@,
            InstructionType::Nor => "nor"@,
            InstructionType::Add => "add"@,
            InstructionType::Sub => "sub"@,
            InstructionType::Xor => "xor"@,
            InstructionType::Lsl => "lsl"@,
            InstructionType::Lsr => "lsr"@,
            InstructionType::Mul => "mul"@,
            InstructionType::Imul => "imul"@,
            InstructionType::Div => "div"@,
            InstructionType::Idiv => "idiv"@,
            InstructionType::Rem => "rem"@,
            InstructionType::Irem => "irem"@,
            InstructionType::Mov => "mov"@,
            InstructionType::Inc => "inc"@,
            InstructionType::Dec => "dec"@,
            InstructionType::Se => "se"@,
            InstructionType::Sne => "sne"@,
            InstructionType::Sl => "sl"@,
            InstructionType::Sle => "sle"@,
            InstructionType::Sg => "sg"@,
            InstructionType::Sge => "sge"@,
            InstructionType::Asr => "asr"@,
            InstructionType::Jmp => "jmp"@,
            InstructionType::Je => "je"@,
            InstructionType::Jne => "jne"@,
            InstructionType::Jl => "jl"@,
            InstructionType::Jge => "jge"@,
            InstructionType::Jle => "jle"@,
            InstructionType::Jg => "jg"@,
            InstructionType::Jb => "jb"@,
            InstructionType::Jae => "jae"@,
            InstructionType::Jbe => "jbe"@,
            InstructionType::Ja => "ja"@,
            InstructionType::Push => "push"@,
            InstructionType::Pop => "pop"@,
            InstructionType::Call => "call"@,
            InstructionType::Ret => "ret"@,
        }
    }

    /// The mnemonic of this kind.
    pub fn mnemonic(self) -> (s: &'static str)
        ensures
            s@ == self.mnemonic_spec(),
    {
        match self {
            InstructionType::Nop => "nop",
            InstructionType::Hlt => "hlt",
            InstructionType::Pr => "pr",
            InstructionType::Epr => "epr",
            InstructionType::Tme => "tme",
            InstructionType::Rdpc => "rdpc",
            InstructionType::Kbrd => "kbrd",
            InstructionType::Setgfx => "setgfx",
            InstructionType::Draw => "draw",
            InstructionType::Slp => "slp",
            InstructionType::Rdclk => "rdclk",
            InstructionType::Ld => "ld",
            InstructionType::Ldw => "ld.w",
            InstructionType::Ldb => "ld.b",
            InstructionType::Pld => "pld",
            InstructionType::Pldw => "pld.w",
            InstructionType::Pldb => "pld.b",
            InstructionType::Str => "str",
            InstructionType::Strw => "str.w",
            InstructionType::Strb => "str.b",
            InstructionType::Pstr => "pstr",
            InstructionType::Pstrw => "pstr.w",
            InstructionType::Pstrb => "pstr.b",
            InstructionType::Nand => "nand",
            InstructionType::Or => "or",
            InstructionType::And => "and",
            InstructionType::Nor => "nor",
            InstructionType::Add => "add",
            InstructionType::Sub => "sub",
            InstructionType::Xor => "xor",
            InstructionType::Lsl => "lsl",
            InstructionType::Lsr => "lsr",
            InstructionType::Mul => "mul",
            InstructionType::Imul => "imul",
            InstructionType::Div => "div",
            InstructionType::Idiv => "idiv",
            InstructionType::Rem => "rem",
            InstructionType::Irem => "irem",
            InstructionType::Mov => "mov",
            InstructionType::Inc => "inc",
            InstructionType::Dec => "dec",
            InstructionType::Se => "se",
            InstructionType::Sne => "sne",
            InstructionType::Sl => "sl",
            InstructionType::Sle => "sle",
            InstructionType::Sg => "sg",
            InstructionType::Sge => "sge",
            InstructionType::Asr => "asr",
            InstructionType::Jmp => "jmp",
            InstructionType::Je => "je",
            InstructionType::Jne => "jne",
            InstructionType::Jl => "jl",
            InstructionType::Jge => "jge",
            InstructionType::Jle => "jle",
            InstructionType::Jg => "jg",
            InstructionType::Jb => "jb",
            InstructionType::Jae => "jae",
            InstructionType::Jbe => "jbe",
            InstructionType::Ja => "ja",
            InstructionType::Push => "push",
            InstructionType::Pop => "pop",
            InstructionType::Call => "call",
            InstructionType::Ret => "ret",
        }
    }
}

/// Every kind is the one that its own (mode, opcode) pair is assigned to.
pub proof fn lemma_pair_of_kind(ty: InstructionType)
    ensures
        ty.mode_spec() < 4,
        InstructionType::of_pair(ty.mode_spec(), ty.opcode_spec()) == Some(ty),
{
}

/// A pair that is assigned to a kind is that kind's own pair.
pub proof fn lemma_kind_of_pair(mode: u8, opcode: u8)
    ensures
        match InstructionType::of_pair(mode, opcode) {
            Some(ty) => ty.mode_spec() == mode && ty.opcode_spec() == opcode,
            None => true,
        },
{
}

/// The 32-bit value whose little-endian bytes are `b0`, `b1`, `b2`, `b3`.
pub open spec fn u32_from_le(b0: u8, b1: u8, b2: u8, b3: u8) -> u32 {
    (b0 as int + b1 as int * 0x100 + b2 as int * 0x1_0000 + b3 as int * 0x100_0000) as u32
}

/// Byte `i` (0 is the lowest) of the little-endian form of `v`.
pub open spec fn le_byte(v: u32, i: int) -> u8 {
    if i == 0 {
        (v as int % 0x100) as u8
    } else if i == 1 {
        (v as int / 0x100 % 0x100) as u8
    } else if i == 2 {
        (v as int / 0x1_0000 % 0x100) as u8
    } else {
        (v as int / 0x100_0000 % 0x100) as u8
    }
}

/// The four little-endian bytes of a value put together give the value back.
pub proof fn lemma_le_bytes_round_trip(v: u32)
    ensures
        u32_from_le(le_byte(v, 0), le_byte(v, 1), le_byte(v, 2), le_byte(v, 3)) == v,
{
    assert(v % 0x100 + (v / 0x100 % 0x100) * 0x100 + (v / 0x1_0000 % 0x100) * 0x1_0000 + (v
        / 0x100_0000 % 0x100) * 0x100_0000 == v) by (bit_vector);
}

/// A value put together from four bytes has those bytes as its
/// little-endian form.
pub proof fn lemma_le_value_round_trip(b0: u8, b1: u8, b2: u8, b3: u8)
    ensures
        le_byte(u32_from_le(b0, b1, b2, b3), 0) == b0,
        le_byte(u32_from_le(b0, b1, b2, b3), 1) == b1,
        le_byte(u32_from_le(b0, b1, b2, b3), 2) == b2,
        le_byte(u32_from_le(b0, b1, b2, b3), 3) == b3,
{
    let v: u32 = (b0 as u32 + b1 as u32 * 0x100 + b2 as u32 * 0x1_0000 + b3 as u32 * 0x100_0000)
        as u32;
    assert(v == u32_from_le(b0, b1, b2, b3));
    assert(v % 0x100 == b0 && v / 0x100 % 0x100 == b1 && v / 0x1_0000 % 0x100 == b2 && v
        / 0x100_0000 % 0x100 == b3) by (bit_vector)
        requires
            v == (b0 as u32 + b1 as u32 * 0x100 + b2 as u32 * 0x1_0000 + b3 as u32 * 0x100_0000)
                as u32,
    ;
}

/// Puts four little-endian bytes together.
pub fn word_from_le(b0: u8, b1: u8, b2: u8, b3: u8) -> (v: u32)
    ensures
        v == u32_from_le(b0, b1, b2, b3),
{
    let v: u32 = (b0 as u32) | ((b1 as u32) << 8) | ((b2 as u32) << 16) | ((b3 as u32) << 24);
    assert((b0 as u32) | ((b1 as u32) << 8) | ((b2 as u32) << 16) | ((b3 as u32) << 24)
        == b0 as u32 + b1 as u32 * 0x100 + b2 as u32 * 0x1_0000 + b3 as u32 * 0x100_0000)
        by (bit_vector);
    v
}

/// The four little-endian bytes of `v`, lowest first.
pub fn word_to_le(v: u32) -> (b: [u8; 4])
    ensures
        b[0] == le_byte(v, 0),
        b[1] == le_byte(v, 1),
        b[2] == le_byte(v, 2),
        b[3] == le_byte(v, 3),
{
    let b0: u8 = (v & 0xff) as u8;
    let b1: u8 = ((v >> 8) & 0xff) as u8;
    let b2: u8 = ((v >> 16) & 0xff) as u8;
    let b3: u8 = ((v >> 24) & 0xff) as u8;
    assert(v & 0xff == v % 0x100 && (v >> 8) & 0xff == v / 0x100 % 0x100
        && (v >> 16) & 0xff == v / 0x1_0000 % 0x100
        && (v >> 24) & 0xff == v / 0x100_0000 % 0x100) by (bit_vector);
    [b0, b1, b2, b3]
}

/// A decoded instruction: its kind, its register operands, and its
/// immediate where the encoding carries one.
#[derive(Copy, Clone, Debug, PartialEq, Eq, Structural)]
pub struct Instruction {
    pub ty: InstructionType,
    pub dst: Reg,
    pub a: Reg,
    pub b: Reg,
    pub c: Reg,
    pub d: Reg,
    pub e: Reg,
    pub f: Reg,
    pub has_imm: bool,
    pub imm: BitSize,
}

/// The mode that a first byte carries: its two high bits.
pub open spec fn mode_of(ctrl: u8) -> u8 {
    ctrl / 64
}

/// Whether a first byte says that an immediate follows: its bit 5.
pub open spec fn imm_flag_of(ctrl: u8) -> bool {
    ctrl / 32 % 2 == 1
}

/// The register that a byte names: the one indexed by its low five bits.
pub open spec fn reg_of(byte: u8) -> Reg {
    Reg::of_index(byte as int % 32)
}

/// The number of bytes that an encoding with first byte `ctrl` takes.
pub open spec fn encoded_len(ctrl: u8) -> nat {
    if imm_flag_of(ctrl) {
        8
    } else {
        4
    }
}

/// What a byte buffer decodes to. A buffer shorter than its first byte
/// demands is of the wrong size; then an unassigned (mode, opcode) pair is
/// unknown; else the fields are masked out of the bytes.
pub open spec fn decode(bytes: Seq<u8>) -> Result<Instruction, InstError> {
    if bytes.len() < 4 || bytes.len() < encoded_len(bytes[0]) {
        Err(InstError::WrongSize(bytes.len() as usize))
    } else {
        let has_imm = imm_flag_of(bytes[0]);
        match InstructionType::of_pair(mode_of(bytes[0]), bytes[1]) {
            None => Err(InstError::UnknownInstruction(mode_of(bytes[0]), bytes[1])),
            Some(ty) => Ok(
                Instruction {
                    ty,
                    dst: reg_of(bytes[0]),
                    a: reg_of(bytes[2]),
                    b: reg_of(bytes[3]),
                    c: if has_imm { reg_of(bytes[4]) } else { Reg::Zr },
                    d: if has_imm { reg_of(bytes[5]) } else { Reg::Zr },
                    e: if has_imm { reg_of(bytes[6]) } else { Reg::Zr },
                    f: if has_imm { reg_of(bytes[7]) } else { Reg::Zr },
                    has_imm,
                    imm: if has_imm {
                        u32_from_le(bytes[4], bytes[5], bytes[6], bytes[7])
                    } else {
                        0
                    },
                },
            ),
        }
    }
}

impl Instruction {
    /// Whether the record is one that a decoder can produce: with an
    /// immediate, `c` to `f` are the registers that its four bytes name;
    /// without one, the immediate is zero and `c` to `f` are `Zr`.
    pub open spec fn well_formed(self) -> bool {
        if self.has_imm {
            &&& self.c == reg_of(le_byte(self.imm, 0))
            &&& self.d == reg_of(le_byte(self.imm, 1))
            &&& self.e == reg_of(le_byte(self.imm, 2))
            &&& self.f == reg_of(le_byte(self.imm, 3))
        } else {
            &&& self.imm == 0
            &&& self.c == Reg::Zr
            &&& self.d == Reg::Zr
            &&& self.e == Reg::Zr
            &&& self.f == Reg::Zr
        }
    }

    /// The number of bytes that the encoding of this record takes.
    pub open spec fn len_spec(self) -> nat {
        if self.has_imm {
            8
        } else {
            4
        }
    }

    /// The first byte of the encoding: mode, immediate flag, destination.
    pub open spec fn ctrl_spec(self) -> u8 {
        (self.ty.mode_spec() as int * 64 + (if self.has_imm { 32int } else { 0int })
            + self.dst.index_spec()) as u8
    }

    /// The encoding of this record: four bytes, and the immediate's four
    /// little-endian bytes after them where it has one.
    pub open spec fn encode_spec(self) -> Seq<u8> {
        let head = seq![
            self.ctrl_spec(),
            self.ty.opcode_spec(),
            self.a.index_spec() as u8,
            self.b.index_spec() as u8,
        ];
        if self.has_imm {
            head + seq![
                le_byte(self.imm, 0),
                le_byte(self.imm, 1),
                le_byte(self.imm, 2),
                le_byte(self.imm, 3),
            ]
        } else {
            head
        }
    }

    /// The number of bytes that the encoding of this record takes: 8 with
    /// an immediate, 4 without.
    pub fn len(&self) -> (n: u32)
        ensures
            n as nat == self.len_spec(),
    {
        if self.has_imm {
            8
        } else {
            4
        }
    }

    /// Decodes the instruction at the start of `inst`.
    pub fn from_buf(inst: &[u8]) -> (r: Result<Instruction, InstError>)
        ensures
            r == decode(inst@),
            r is Ok ==> r->Ok_0.well_formed() && inst@.len() >= r->Ok_0.len_spec(),
    {
        if inst.len() < 4 {
            return Err(InstError::WrongSize(inst.len()));
        }
        let ctrl = inst[0];
        let opcode = inst[1];
        let mode: u8 = (ctrl >> 6) & 0b11;
        let has_imm = ((ctrl >> 5) & 0b1) == 1;
        assert((ctrl >> 6) & 0b11 == ctrl / 64 && (ctrl >> 5) & 0b1 == ctrl / 32 % 2) by (bit_vector);
        if has_imm && inst.len() < 8 {
            return Err(InstError::WrongSize(inst.len()));
        }
        let a = mask_reg(inst[2]);
        let b = mask_reg(inst[3]);
        let dst = mask_reg(ctrl);
        let mut c = Reg::Zr;
        let mut d = Reg::Zr;
        let mut e = Reg::Zr;
        let mut f = Reg::Zr;
        let mut imm: BitSize = 0;
        if has_imm {
            imm = word_from_le(inst[4], inst[5], inst[6], inst[7]);
            c = mask_reg(inst[4]);
            d = mask_reg(inst[5]);
            e = mask_reg(inst[6]);
            f = mask_reg(inst[7]);
            proof {
                lemma_le_value_round_trip(inst[4], inst[5], inst[6], inst[7]);
            }
        }
        match InstructionType::try_from(mode, opcode) {
            None => Err(InstError::UnknownInstruction(mode, opcode)),
            Some(ty) => Ok(Instruction { ty, dst, a, b, c, d, e, f, has_imm, imm }),
        }
    }

    /// Encodes this record.
    pub fn encode(&self) -> (bytes: Vec<u8>)
        ensures
            bytes@ == self.encode_spec(),
    {
        let mode = self.ty.mode();
        let flag: u8 = if self.has_imm { 32 } else { 0 };
        let ctrl: u8 = mode * 64 + flag + self.dst.index();
        let mut bytes: Vec<u8> = Vec::new();
        bytes.push(ctrl);
        bytes.push(self.ty.opcode());
        bytes.push(self.a.index());
        bytes.push(self.b.index());
        if self.has_imm {
            let le = word_to_le(self.imm);
            bytes.push(le[0]);
            bytes.push(le[1]);
            bytes.push(le[2]);
            bytes.push(le[3]);
        }
        assert(bytes@ =~= self.encode_spec());
        bytes
    }
}

/// The register that a byte names.
pub fn mask_reg(byte: u8) -> (r: Reg)
    ensures
        r == reg_of(byte),
{
    assert(byte & 0x1f == byte % 32) by (bit_vector);
    Reg::from_low_bits(byte)
}

/// The three fields of a first byte are read back from it.
proof fn lemma_ctrl_fields(mode: int, flag: bool, dst: int)
    requires
        0 <= mode < 4,
        0 <= dst < 32,
    ensures
        ({
            let ctrl = mode * 64 + (if flag { 32int } else { 0int }) + dst;
            &&& 0 <= ctrl < 256
            &&& ctrl / 64 == mode
            &&& (ctrl / 32 % 2 == 1) == flag
            &&& ctrl % 32 == dst
        }),
{
}

/// Decoding the encoding of a well-formed record gives the record back.
#[verifier::spinoff_prover]
#[verifier::rlimit(60)]
pub proof fn lemma_decode_encode(inst: Instruction)
    requires
        inst.well_formed(),
    ensures
        decode(inst.encode_spec()) == Ok::<Instruction, InstError>(inst),
{
    let bytes = inst.encode_spec();
    lemma_pair_of_kind(inst.ty);
    lemma_reg_of_index(inst.dst);
    lemma_reg_of_index(inst.a);
    lemma_reg_of_index(inst.b);
    lemma_ctrl_fields(inst.ty.mode_spec() as int, inst.has_imm, inst.dst.index_spec());
    assert(bytes[0] == inst.ctrl_spec());
    assert(bytes[1] == inst.ty.opcode_spec());
    assert(bytes[2] == inst.a.index_spec() as u8);
    assert(bytes[3] == inst.b.index_spec() as u8);
    assert(mode_of(bytes[0]) == inst.ty.mode_spec());
    assert(imm_flag_of(bytes[0]) == inst.has_imm);
    assert(reg_of(bytes[0]) == inst.dst);
    assert(reg_of(bytes[2]) == inst.a);
    assert(reg_of(bytes[3]) == inst.b);
    assert(bytes.len() == inst.len_spec());
    if inst.has_imm {
        lemma_le_bytes_round_trip(inst.imm);
        assert(bytes[4] == le_byte(inst.imm, 0));
        assert(bytes[5] == le_byte(inst.imm, 1));
        assert(bytes[6] == le_byte(inst.imm, 2));
        assert(bytes[7] == le_byte(inst.imm, 3));
        assert(u32_from_le(bytes[4], bytes[5], bytes[6], bytes[7]) == inst.imm);
    }
}

/// Encoding what a buffer decodes to gives back the bytes that the decoder
/// read, wherever the buffer keeps the unused high bits of its third and
/// fourth byte clear.
pub proof fn lemma_encode_decode(bytes: Seq<u8>)
    requires
        decode(bytes) is Ok,
        bytes[2] < 32,
        bytes[3] < 32,
    ensures
        decode(bytes)->Ok_0.encode_spec() == bytes.subrange(
            0,
            decode(bytes)->Ok_0.len_spec() as int,
        ),
{
    let inst = decode(bytes)->Ok_0;
    lemma_kind_of_pair(mode_of(bytes[0]), bytes[1]);
    if inst.has_imm {
        lemma_le_value_round_trip(bytes[4], bytes[5], bytes[6], bytes[7]);
    }
    assert(inst.encode_spec() =~= bytes.subrange(0, inst.len_spec() as int));
}

} // verus!
