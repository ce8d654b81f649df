use vstd::prelude::*;
use vstd::std_specs::convert::FromSpecImpl;

verus! {

/// The machine word: register width and address width.
pub type BitSize = u32;

/// A register name. The position of a name in this list is its index in the
/// encoding, from 0 (`Zr`) to 31 (`A7`).
#[derive(Copy, Clone, Debug, PartialEq, Eq, Structural)]
pub enum Reg {
    Zr,
    Ra,
    Sp,
    Gp,
    Tp,
    T0,
    T1,
    T2,
    T3,
    T4,
    T5,
    T6,
    S0,
    S1,
    S2,
    S3,
    S4,
    S5,
    S6,
    S7,
    S8,
    S9,
    S10,
    S11,
    A0,
    A1,
    A2,
    A3,
    A4,
    A5,
    A6,
    A7,
}

impl Reg {
    /// The index of this register, between 0 and 31.
    pub open spec fn index_spec(self) -> int {
        match self {
            Reg::Zr => 0,
            Reg::Ra => 1,
            Reg::Sp => 2,
            Reg::Gp => 3,
            Reg::Tp => 4,
            Reg::T0 => 5,
            Reg::T1 => 6,
            Reg::T2 => 7,
            Reg::T3 => 8,
            Reg::T4 => 9,
            Reg::T5 => 10,
            Reg::T6 => 11,
            Reg::S0 => 12,
            Reg::S1 => 13,
            Reg::S2 => 14,
            Reg::S3 => 15,
            Reg::S4 => 16,
            Reg::S5 => 17,
            Reg::S6 => 18,
            Reg::S7 => 19,
            Reg::S8 => 20,
            Reg::S9 => 21,
            Reg::S10 => 22,
            Reg::S11 => 23,
            Reg::A0 => 24,
            Reg::A1 => 25,
            Reg::A2 => 26,
            Reg::A3 => 27,
            Reg::A4 => 28,
            Reg::A5 => 29,
            Reg::A6 => 30,
            Reg::A7 => 31,
        }
    }

    /// The register with index `i`; indices outside 0..=31 give `A7`.
    pub open spec fn of_index(i: int) -> Reg {
        if i == 0 {
            Reg::Zr
        } else if i == 1 {
            Reg::Ra
        } else if i == 2 {
            Reg::Sp
        } else if i == 3 {
            Reg::Gp
        } else if i == 4 {
            Reg::Tp
        } else if i == 5 {
            Reg::T0
        } else if i == 6 {
            Reg::T1
        } else if i == 7 {
            Reg::T2
        } else if i == 8 {
            Reg::T3
        } else if i == 9 {
            Reg::T4
        } else if i == 10 {
            Reg::T5
        } else if i == 11 {
            Reg::T6
        } else if i == 12 {
            Reg::S0
        } else if i == 13 {
            Reg::S1
        } else if i == 14 {
            Reg::S2
        } else if i == 15 {
            Reg::S3
        } else if i == 16 {
            Reg::S4
        } else if i == 17 {
            Reg::S5
        } else if i == 18 {
            Reg::S6
        } else if i == 19 {
            Reg::S7
        } else if i == 20 {
            Reg::S8
        } else if i == 21 {
            Reg::S9
        } else if i == 22 {
            Reg::S10
        } else if i == 23 {
            Reg::S11
        } else if i == 24 {
            Reg::A0
        } else if i == 25 {
            Reg::A1
        } else if i == 26 {
            Reg::A2
        } else if i == 27 {
            Reg::A3
        } else if i == 28 {
            Reg::A4
        } else if i == 29 {
            Reg::A5
        } else if i == 30 {
            Reg::A6
        } else {
            Reg::A7
        }
    }

    /// The index of this register, between 0 and 31.
    pub fn index(self) -> (i: u8)
        ensures
            i as int == self.index_spec(),
            i < 32,
    {
        match self {
            Reg::Zr => 0,
            Reg::Ra => 1,
            Reg::Sp => 2,
            Reg::Gp => 3,
            Reg::Tp => 4,
            Reg::T0 => 5,
            Reg::T1 => 6,
            Reg::T2 => 7,
            Reg::T3 => 8,
            Reg::T4 => 9,
            Reg::T5 => 10,
            Reg::T6 => 11,
            Reg::S0 => 12,
            Reg::S1 => 13,
            Reg::S2 => 14,
            Reg::S3 => 15,
            Reg::S4 => 16,
            Reg::S5 => 17,
            Reg::S6 => 18,
            Reg::S7 => 19,
            Reg::S8 => 20,
            Reg::S9 => 21,
            Reg::S10 => 22,
            Reg::S11 => 23,
            Reg::A0 => 24,
            Reg::A1 => 25,
            Reg::A2 => 26,
            Reg::A3 => 27,
            Reg::A4 => 28,
            Reg::A5 => 29,
            Reg::A6 => 30,
            Reg::A7 => 31,
        }
    }

    /// The register named by the low five bits of `value`.
    pub fn from_low_bits(value: u8) -> (r: Reg)
        ensures
            r == Reg::of_index((value & 0x1f) as int),
            r.index_spec() == (value & 0x1f) as int,
    {
        let i: u8 = value & 0x1f;
        assert(value & 0x1f < 32) by (bit_vector);
        match i {
            0 => Reg::Zr,
            1 => Reg::Ra,
            2 => Reg::Sp,
            3 => Reg::Gp,
            4 => Reg::Tp,
            5 => Reg::T0,
            6 => Reg::T1,
            7 => Reg::T2,
            8 => Reg::T3,
            9 => Reg::T4,
            10 => Reg::T5,
            11 => Reg::T6,
            12 => Reg::S0,
            13 => Reg::S1,
            14 => Reg::S2,
            15 => Reg::S3,
            16 => Reg::S4,
            17 => Reg::S5,
            18 => Reg::S6,
            19 => Reg::S7,
            20 => Reg::S8,
            21 => Reg::S9,
            22 => Reg::S10,
            23 => Reg::S11,
            24 => Reg::A0,
            25 => Reg::A1,
            26 => Reg::A2,
            27 => Reg::A3,
            28 => Reg::A4,
            29 => Reg::A5,
            30 => Reg::A6,
            _ => Reg::A7,
        }
    }

    /// The lower-case name of this register, as the tracer prints it.
    pub open spec fn name_spec(self) -> Seq<char> {
        match self {
            Reg::Zr => "zr"@,
            Reg::Ra => "ra"@,
            Reg::Sp => "sp"@,
            Reg::Gp => "gp"@,
            Reg::Tp => "tp"@,
            Reg::T0 => "t0"@,
            Reg::T1 => "t1"@,
            Reg::T2 => "t2"@,
            Reg::T3 => "t3"@,
            Reg::T4 => "t4"@,
            Reg::T5 => "t5"@,
            Reg::T6 => "t6"@,
            Reg::S0 => "s0"@,
            Reg::S1 => "s1"@,
            Reg::S2 => "s2"@,
            Reg::S3 => "s3"@,
            Reg::S4 => "s4"@,
            Reg::S5 => "s5"@,
            Reg::S6 => "s6"@,
            Reg::S7 => "s7"@,
            Reg::S8 => "s8"@,
            Reg::S9 => "s9"@,
            Reg::S10 => "s10"@,
            Reg::S11 => "s11"@,
            Reg::A0 => "a0"@,
            Reg::A1 => "a1"@,
            Reg::A2 => "a2"@,
            Reg::A3 => "a3"@,
            Reg::A4 => "a4"@,
            Reg::A5 => "a5"@,
            Reg::A6 => "a6"@,
            Reg::A7 => "a7"@,
        }
    }

    /// The lower-case name of this register.
    pub fn name(self) -> (s: &'static str)
        ensures
            s@ == self.name_spec(),
    {
        match self {
            Reg::Zr => "zr",
            Reg::Ra => "ra",
            Reg::Sp => "sp",
            Reg::Gp => "gp",
            Reg::Tp => "tp",
            Reg::T0 => "t0",
            Reg::T1 => "t1",
            Reg::T2 => "t2",
            Reg::T3 => "t3",
            Reg::T4 => "t4",
            Reg::T5 => "t5",
            Reg::T6 => "t6",
            Reg::S0 => "s0",
            Reg::S1 => "s1",
            Reg::S2 => "s2",
            Reg::S3 => "s3",
            Reg::S4 => "s4",
            Reg::S5 => "s5",
            Reg::S6 => "s6",
            Reg::S7 => "s7",
            Reg::S8 => "s8",
            Reg::S9 => "s9",
            Reg::S10 => "s10",
            Reg::S11 => "s11",
            Reg::A0 => "a0",
            Reg::A1 => "a1",
            Reg::A2 => "a2",
            Reg::A3 => "a3",
            Reg::A4 => "a4",
            Reg::A5 => "a5",
            Reg::A6 => "a6",
            Reg::A7 => "a7",
        }
    }
}

/// Every register is the one that its index names.
pub proof fn lemma_reg_of_index(r: Reg)
    ensures
        0 <= r.index_spec() < 32,
        Reg::of_index(r.index_spec()) == r,
{
}

/// Every index from 0 to 31 is the index of the register it names.
pub proof fn lemma_index_of_reg(i: int)
    requires
        0 <= i < 32,
    ensures
        Reg::of_index(i).index_spec() == i,
{
}

impl From<u8> for Reg {
    fn from(value: u8) -> (r: Reg) {
        Reg::from_low_bits(value)
    }
}

impl FromSpecImpl<u8> for Reg {
    open spec fn obeys_from_spec() -> bool {
        true
    }

    open spec fn from_spec(value: u8) -> Reg {
        Reg::of_index((value & 0x1f) as int)
    }
}

impl From<u32> for Reg {
    fn from(value: u32) -> (r: Reg) {
        let low: u8 = (value & 0x1f) as u8;
        assert((value & 0x1f) < 32) by (bit_vector);
        assert(((value & 0x1f) as u8) & 0x1f == (value & 0x1f) as u8) by (bit_vector);
        Reg::from_low_bits(low)
    }
}

impl FromSpecImpl<u32> for Reg {
    open spec fn obeys_from_spec() -> bool {
        true
    }

    open spec fn from_spec(value: u32) -> Reg {
        Reg::of_index((value & 0x1f) as int)
    }
}

/// The register file: 32 slots of 32 bits, one per register name.
#[derive(Copy, Clone, Debug, PartialEq, Eq, Structural)]
pub struct Registers {
    /// zero register: reads as zero, writes are ignored
    pub zr: BitSize,
    /// return address (caller saved)
    pub ra: BitSize,
    /// stack pointer
    pub sp: BitSize,
    /// global pointer
    pub gp: BitSize,
    /// thread pointer
    pub tp: BitSize,
    /// temporary 0 (caller saved)
    pub t0: BitSize,
    /// temporary 1 (caller saved)
    pub t1: BitSize,
    /// temporary 2 (caller saved)
    pub t2: BitSize,
    /// temporary 3 (caller saved)
    pub t3: BitSize,
    /// temporary 4 (caller saved)
    pub t4: BitSize,
    /// temporary 5 (caller saved)
    pub t5: BitSize,
    /// temporary 6 (caller saved)
    pub t6: BitSize,
    /// saved 0 (callee saved)
    pub s0: BitSize,
    /// saved 1 (callee saved)
    pub s1: BitSize,
    /// saved 2 (callee saved)
    pub s2: BitSize,
    /// saved 3 (callee saved)
    pub s3: BitSize,
    /// saved 4 (callee saved)
    pub s4: BitSize,
    /// saved 5 (callee saved)
    pub s5: BitSize,
    /// saved 6 (callee saved)
    pub s6: BitSize,
    /// saved 7 (callee saved)
    pub s7: BitSize,
    /// saved 8 (callee saved)
    pub s8: BitSize,
    /// saved 9 (callee saved)
    pub s9: BitSize,
    /// saved 10 (callee saved)
    pub s10: BitSize,
    /// saved 11 (callee saved)
    pub s11: BitSize,
    /// argument / return value 0 (caller saved)
    pub a0: BitSize,
    /// argument / return value 1 (caller saved)
    pub a1: BitSize,
    /// argument / return value 2 (caller saved)
    pub a2: BitSize,
    /// argument / return value 3 (caller saved)
    pub a3: BitSize,
    /// argument / return value 4 (caller saved)
    pub a4: BitSize,
    /// argument / return value 5 (caller saved)
    pub a5: BitSize,
    /// argument / return value 6 (caller saved)
    pub a6: BitSize,
    /// argument / return value 7 (caller saved)
    pub a7: BitSize,
}

impl Registers {
    /// What a read of register `reg` gives: zero for `Zr`, else the slot.
    pub open spec fn get(self, reg: Reg) -> BitSize {
        match reg {
            Reg::Zr => 0,
            Reg::Ra => self.ra,
            Reg::Sp => self.sp,
            Reg::Gp => self.gp,
            Reg::Tp => self.tp,
            Reg::T0 => self.t0,
            Reg::T1 => self.t1,
            Reg::T2 => self.t2,
            Reg::T3 => self.t3,
            Reg::T4 => self.t4,
            Reg::T5 => self.t5,
            Reg::T6 => self.t6,
            Reg::S0 => self.s0,
            Reg::S1 => self.s1,
            Reg::S2 => self.s2,
            Reg::S3 => self.s3,
            Reg::S4 => self.s4,
            Reg::S5 => self.s5,
            Reg::S6 => self.s6,
            Reg::S7 => self.s7,
            Reg::S8 => self.s8,
            Reg::S9 => self.s9,
            Reg::S10 => self.s10,
            Reg::S11 => self.s11,
            Reg::A0 => self.a0,
            Reg::A1 => self.a1,
            Reg::A2 => self.a2,
            Reg::A3 => self.a3,
            Reg::A4 => self.a4,
            Reg::A5 => self.a5,
            Reg::A6 => self.a6,
            Reg::A7 => self.a7,
        }
    }

    /// The register file after a write of `val` to `reg`: unchanged for `Zr`.
    pub open spec fn set(self, reg: Reg, val: BitSize) -> Registers {
        match reg {
            Reg::Zr => self,
            Reg::Ra => (Registers { ra: val, ..self }),
            Reg::Sp => (Registers { sp: val, ..self }),
            Reg::Gp => (Registers { gp: val, ..self }),
            Reg::Tp => (Registers { tp: val, ..self }),
            Reg::T0 => (Registers { t0: val, ..self }),
            Reg::T1 => (Registers { t1: val, ..self }),
            Reg::T2 => (Registers { t2: val, ..self }),
            Reg::T3 => (Registers { t3: val, ..self }),
            Reg::T4 => (Registers { t4: val, ..self }),
            Reg::T5 => (Registers { t5: val, ..self }),
            Reg::T6 => (Registers { t6: val, ..self }),
            Reg::S0 => (Registers { s0: val, ..self }),
            Reg::S1 => (Registers { s1: val, ..self }),
            Reg::S2 => (Registers { s2: val, ..self }),
            Reg::S3 => (Registers { s3: val, ..self }),
            Reg::S4 => (Registers { s4: val, ..self }),
            Reg::S5 => (Registers { s5: val, ..self }),
            Reg::S6 => (Registers { s6: val, ..self }),
            Reg::S7 => (Registers { s7: val, ..self }),
            Reg::S8 => (Registers { s8: val, ..self }),
            Reg::S9 => (Registers { s9: val, ..self }),
            Reg::S10 => (Registers { s10: val, ..self }),
            Reg::S11 => (Registers { s11: val, ..self }),
            Reg::A0 => (Registers { a0: val, ..self }),
            Reg::A1 => (Registers { a1: val, ..self }),
            Reg::A2 => (Registers { a2: val, ..self }),
            Reg::A3 => (Registers { a3: val, ..self }),
            Reg::A4 => (Registers { a4: val, ..self }),
            Reg::A5 => (Registers { a5: val, ..self }),
            Reg::A6 => (Registers { a6: val, ..self }),
            Reg::A7 => (Registers { a7: val, ..self }),
        }
    }

    /// The register file at power-on: every slot zero, but `sp` at the top
    /// of the address space.
    pub open spec fn initial() -> Registers {
        Registers {
            zr: 0,
            ra: 0,
            sp: 0xffff_ffff,
            gp: 0,
            tp: 0,
            t0: 0,
            t1: 0,
            t2: 0,
            t3: 0,
            t4: 0,
            t5: 0,
            t6: 0,
            s0: 0,
            s1: 0,
            s2: 0,
            s3: 0,
            s4: 0,
            s5: 0,
            s6: 0,
            s7: 0,
            s8: 0,
            s9: 0,
            s10: 0,
            s11: 0,
            a0: 0,
            a1: 0,
            a2: 0,
            a3: 0,
            a4: 0,
            a5: 0,
            a6: 0,
            a7: 0,
        }
    }

    /// Writes `val` to `reg`. A write to `Zr` is ignored.
    pub fn set_reg(&mut self, reg: Reg, val: BitSize)
        ensures
            *final(self) == old(self).set(reg, val),
    {
        match reg {
            Reg::Zr => {},
            Reg::Ra => {
                self.ra = val;
            },
            Reg::Sp => {
                self.sp = val;
            },
            Reg::Gp => {
                self.gp = val;
            },
            Reg::Tp => {
                self.tp = val;
            },
            Reg::T0 => {
                self.t0 = val;
            },
            Reg::T1 => {
                self.t1 = val;
            },
            Reg::T2 => {
                self.t2 = val;
            },
            Reg::T3 => {
                self.t3 = val;
            },
            Reg::T4 => {
                self.t4 = val;
            },
            Reg::T5 => {
                self.t5 = val;
            },
            Reg::T6 => {
                self.t6 = val;
            },
            Reg::S0 => {
                self.s0 = val;
            },
            Reg::S1 => {
                self.s1 = val;
            },
            Reg::S2 => {
                self.s2 = val;
            },
            Reg::S3 => {
                self.s3 = val;
            },
            Reg::S4 => {
                self.s4 = val;
            },
            Reg::S5 => {
                self.s5 = val;
            },
            Reg::S6 => {
                self.s6 = val;
            },
            Reg::S7 => {
                self.s7 = val;
            },
            Reg::S8 => {
                self.s8 = val;
            },
            Reg::S9 => {
                self.s9 = val;
            },
            Reg::S10 => {
                self.s10 = val;
            },
            Reg::S11 => {
                self.s11 = val;
            },
            Reg::A0 => {
                self.a0 = val;
            },
            Reg::A1 => {
                self.a1 = val;
            },
            Reg::A2 => {
                self.a2 = val;
            },
            Reg::A3 => {
                self.a3 = val;
            },
            Reg::A4 => {
                self.a4 = val;
            },
            Reg::A5 => {
                self.a5 = val;
            },
            Reg::A6 => {
                self.a6 = val;
            },
            Reg::A7 => {
                self.a7 = val;
            },
        }
    }

    /// Reads `reg`. `Zr` reads as zero.
    pub fn get_reg(&self, reg: Reg) -> (val: BitSize)
        ensures
            val == self.get(reg),
    {
        match reg {
            Reg::Zr => 0,
            Reg::Ra => self.ra,
            Reg::Sp => self.sp,
            Reg::Gp => self.gp,
            Reg::Tp => self.tp,
            Reg::T0 => self.t0,
            Reg::T1 => self.t1,
            Reg::T2 => self.t2,
            Reg::T3 => self.t3,
            Reg::T4 => self.t4,
            Reg::T5 => self.t5,
            Reg::T6 => self.t6,
            Reg::S0 => self.s0,
            Reg::S1 => self.s1,
            Reg::S2 => self.s2,
            Reg::S3 => self.s3,
            Reg::S4 => self.s4,
            Reg::S5 => self.s5,
            Reg::S6 => self.s6,
            Reg::S7 => self.s7,
            Reg::S8 => self.s8,
            Reg::S9 => self.s9,
            Reg::S10 => self.s10,
            Reg::S11 => self.s11,
            Reg::A0 => self.a0,
            Reg::A1 => self.a1,
            Reg::A2 => self.a2,
            Reg::A3 => self.a3,
            Reg::A4 => self.a4,
            Reg::A5 => self.a5,
            Reg::A6 => self.a6,
            Reg::A7 => self.a7,
        }
    }
}

impl Default for Registers {
    fn default() -> (r: Registers)
        ensures
            r == Registers::initial(),
    {
        Registers {
            zr: 0,
            ra: 0,
            sp: BitSize::MAX,
            gp: 0,
            tp: 0,
            t0: 0,
            t1: 0,
            t2: 0,
            t3: 0,
            t4: 0,
            t5: 0,
            t6: 0,
            s0: 0,
            s1: 0,
            s2: 0,
            s3: 0,
            s4: 0,
            s5: 0,
            s6: 0,
            s7: 0,
            s8: 0,
            s9: 0,
            s10: 0,
            s11: 0,
            a0: 0,
            a1: 0,
            a2: 0,
            a3: 0,
            a4: 0,
            a5: 0,
            a6: 0,
            a7: 0,
        }
    }
}

/// The zero register reads as zero after any write to it, and the write
/// changes no register.
pub proof fn lemma_register_zero(regs: Registers, val: BitSize)
    ensures
        regs.set(Reg::Zr, val) == regs,
        regs.set(Reg::Zr, val).get(Reg::Zr) == 0,
        regs.get(Reg::Zr) == 0,
{
}

/// A write to a register other than `Zr` is read back from it, and no write
/// is seen through another register.
pub proof fn lemma_register_write_read(regs: Registers, dst: Reg, val: BitSize, other: Reg)
    ensures
        dst != Reg::Zr ==> regs.set(dst, val).get(dst) == val,
        other != dst ==> regs.set(dst, val).get(other) == regs.get(other),
{
}

} // verus!
