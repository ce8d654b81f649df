use vstd::prelude::*;
use vstd::arithmetic::div_mod::lemma_mod_multiples_vanish;
use crate::instruction::{Instruction, InstructionType, lemma_le_bytes_round_trip};
use crate::mmu::address_range::AddressRange;
use crate::mmu::memory::{FromBytes, ToBytes, mem_size, overwrite};
use crate::mmu::{MemError, Mmu, MmuView, Prot, Protection};
use crate::registers::{BitSize, Reg, Registers};
use crate::host::{lossy_text, text_of_bytes, unix_time_nanos};

verus! {

/// Why an instruction was not executed.
#[derive(Copy, Clone, Debug, PartialEq, Eq, Structural)]
pub enum CpuError {
    /// The instruction is reserved and has no effect defined.
    UnsupportedInst(Instruction),
    /// A pop would move the stack pointer past the last address; holds the
    /// stack pointer.
    StackUnderflow(BitSize),
    /// A push would move the stack pointer below zero; holds the program
    /// counter.
    StackOverflow(BitSize),
    /// The last byte of a load or store would lie past the last address.
    Overflow,
    /// A non-zero dividend was divided by zero.
    DivByZero,
    /// The memory management unit refused an access.
    Mem(MemError),
}

/// What an executed instruction asks of the host.
#[derive(Debug)]
pub enum Effect {
    /// Nothing.
    Nothing,
    /// Write this text to the standard output.
    Print(String),
    /// Write this text to the standard error.
    Eprint(String),
    /// Sleep for this many microseconds.
    Sleep(u64),
}

/// An [`Effect`] with its text as a sequence of characters.
pub enum EffectView {
    Nothing,
    Print(Seq<char>),
    Eprint(Seq<char>),
    Sleep(u64),
}

impl View for Effect {
    type V = EffectView;

    open spec fn view(&self) -> EffectView {
        match self {
            Effect::Nothing => EffectView::Nothing,
            Effect::Print(s) => EffectView::Print(s@),
            Effect::Eprint(s) => EffectView::Eprint(s@),
            Effect::Sleep(us) => EffectView::Sleep(*us),
        }
    }
}

/// The processor: the register file, the graphics base pointer, the
/// program counter and the cycle counter.
#[derive(Copy, Clone, Debug, PartialEq, Eq, Structural)]
pub struct Cpu {
    /// general purpose registers
    pub gp: Registers,
    /// base address of the graphics data
    pub gfx: BitSize,
    /// program counter
    pub pc: BitSize,
    /// cycles since power-on
    pub clk: u64,
}

impl Default for Cpu {
    fn default() -> (cpu: Cpu)
        ensures
            cpu == Cpu::initial(),
    {
        Cpu::new()
    }
}

/// The state that an instruction leaves behind and what it asks of the host.
pub struct Outcome {
    pub cpu: Cpu,
    pub mem: Seq<u8>,
    pub stop: bool,
    pub cycles: u32,
    pub effect: EffectView,
}

/// The 32-bit word that holds `x` modulo 2^32.
pub open spec fn word(x: int) -> BitSize {
    (x % 0x1_0000_0000) as BitSize
}

/// The value of a word read as a signed number in two's complement.
pub open spec fn signed(a: BitSize) -> int {
    if a < 0x8000_0000 {
        a as int
    } else {
        a - 0x1_0000_0000
    }
}

/// The magnitude of `x`.
pub open spec fn magnitude(x: int) -> int {
    if x < 0 {
        -x
    } else {
        x
    }
}

/// The quotient of `x` by `y`, rounded towards zero.
pub open spec fn trunc_div(x: int, y: int) -> int {
    let q = magnitude(x) / magnitude(y);
    if (x < 0) != (y < 0) {
        -q
    } else {
        q
    }
}

/// The remainder of `x` by `y` that goes with [`trunc_div`]: it has the
/// sign of `x`.
pub open spec fn trunc_rem(x: int, y: int) -> int {
    let r = magnitude(x) % magnitude(y);
    if x < 0 {
        -r
    } else {
        r
    }
}

/// `a` shifted right by `s` bits, the sign bit filling what is vacated.
pub open spec fn arith_shr(a: BitSize, s: BitSize) -> BitSize {
    if a < 0x8000_0000 {
        a >> s
    } else {
        !((!a) >> s)
    }
}

/// The cycles that a sleep of `us` microseconds costs when the clock is
/// steady: the time in units of five microseconds, rounded up, at least
/// one, and cut to 32 bits.
pub open spec fn sleep_cycles(us: u64) -> u32 {
    let t = if us < 5 { 5int } else { us as int };
    ((t + 4) / 5 % 0x1_0000_0000) as u32
}

/// Limb `i` (0 is the lowest) of a 128-bit time, 32 bits each.
pub open spec fn time_limb(now: u128, i: int) -> BitSize {
    if i == 0 {
        (now as int % 0x1_0000_0000) as BitSize
    } else if i == 1 {
        (now as int / 0x1_0000_0000 % 0x1_0000_0000) as BitSize
    } else if i == 2 {
        (now as int / 0x1_0000_0000_0000_0000 % 0x1_0000_0000) as BitSize
    } else {
        (now as int / 0x1_0000_0000_0000_0000_0000_0000 % 0x1_0000_0000) as BitSize
    }
}

/// The mask that stack accesses ask for: read and write.
pub open spec fn read_write() -> Protection {
    Protection { read: true, write: true, execute: false }
}

/// The four addresses of the stack slot at `sp`.
pub open spec fn stack_slot(sp: BitSize) -> AddressRange {
    AddressRange { start: sp, end: (sp + 3) as BitSize }
}

/// The processor's error for a refused memory access: an overflow is the
/// processor's own `Overflow`, a page fault is passed on.
pub open spec fn mem_error(e: MemError) -> CpuError {
    match e {
        MemError::Overflow => CpuError::Overflow,
        MemError::PageFault(_) => CpuError::Mem(e),
    }
}

/// Whether a conditional jump of kind `ty` is taken on the register values
/// `a` and `b`.
pub open spec fn jump_taken(ty: InstructionType, a: BitSize, b: BitSize) -> bool {
    match ty {
        InstructionType::Jmp => true,
        InstructionType::Je => a == b,
        InstructionType::Jne => a != b,
        InstructionType::Jl => signed(a) < signed(b),
        InstructionType::Jge => signed(a) >= signed(b),
        InstructionType::Jle => signed(a) <= signed(b),
        InstructionType::Jg => signed(a) > signed(b),
        InstructionType::Jb => a < b,
        InstructionType::Jae => a >= b,
        InstructionType::Jbe => a <= b,
        InstructionType::Ja => a > b,
        _ => false,
    }
}

/// The word that is 1 where `c` holds and 0 where it does not.
pub open spec fn flag(c: bool) -> BitSize {
    if c {
        1
    } else {
        0
    }
}

/// What an arithmetic or logic instruction of kind `ty` computes from its
/// first operand `a` and its second operand `b`. A division or remainder
/// gives zero on a zero dividend, and fails on a zero divisor otherwise.
/// `Mov` passes its second operand on; a kind of another family gives zero.
pub open spec fn alu_result(ty: InstructionType, a: BitSize, b: BitSize) -> Result<
    BitSize,
    CpuError,
> {
    match ty {
        InstructionType::Nand => Ok(!(a & b)),
        InstructionType::Or => Ok(a | b),
        InstructionType::And => Ok(a & b),
        InstructionType::Nor => Ok(!(a | b)),
        InstructionType::Add => Ok(word(a + b)),
        InstructionType::Sub => Ok(word(a - b)),
        InstructionType::Xor => Ok(a ^ b),
        InstructionType::Lsl => Ok(a << (b % 32) as BitSize),
        InstructionType::Lsr => Ok(a >> (b % 32) as BitSize),
        InstructionType::Mul => Ok(word(a * b)),
        InstructionType::Imul => Ok(word(signed(a) * signed(b))),
        InstructionType::Div => if a == 0 {
            Ok(0)
        } else if b == 0 {
            Err(CpuError::DivByZero)
        } else {
            Ok(a / b)
        },
        InstructionType::Idiv => if a == 0 {
            Ok(0)
        } else if b == 0 {
            Err(CpuError::DivByZero)
        } else {
            Ok(word(trunc_div(signed(a), signed(b))))
        },
        InstructionType::Rem => if a == 0 {
            Ok(0)
        } else if b == 0 {
            Err(CpuError::DivByZero)
        } else {
            Ok(a % b)
        },
        InstructionType::Irem => if a == 0 {
            Ok(0)
        } else if b == 0 {
            Err(CpuError::DivByZero)
        } else {
            Ok(word(trunc_rem(signed(a), signed(b))))
        },
        InstructionType::Inc => Ok(word(a + 1)),
        InstructionType::Dec => Ok(word(a - 1)),
        InstructionType::Se => Ok(flag(a == b)),
        InstructionType::Sne => Ok(flag(a != b)),
        InstructionType::Sl => Ok(flag(signed(a) < signed(b))),
        InstructionType::Sle => Ok(flag(signed(a) <= signed(b))),
        InstructionType::Sg => Ok(flag(signed(a) > signed(b))),
        InstructionType::Sge => Ok(flag(signed(a) >= signed(b))),
        InstructionType::Asr => Ok(arith_shr(a, (b % 32) as BitSize)),
        InstructionType::Mov => Ok(b),
        _ => Ok(0),
    }
}

/// Whether `x` is less than `y` when both are read as signed numbers.
pub fn signed_lt(x: BitSize, y: BitSize) -> (r: bool)
    ensures
        r == (signed(x) < signed(y)),
{
    let nx = x >= 0x8000_0000;
    let ny = y >= 0x8000_0000;
    if nx != ny {
        nx
    } else {
        x < y
    }
}

/// The magnitude of `x` read as a signed number.
fn magnitude_of(x: BitSize) -> (m: BitSize)
    ensures
        m as int == magnitude(signed(x)),
{
    if x >= 0x8000_0000 {
        (0x1_0000_0000u64 - x as u64) as BitSize
    } else {
        x
    }
}

/// The word that holds `-q`.
fn negated(q: BitSize) -> (r: BitSize)
    ensures
        r == word(-(q as int)),
{
    if q == 0 {
        0
    } else {
        (0x1_0000_0000u64 - q as u64) as BitSize
    }
}

/// The product of two words, cut to 32 bits. It is the low word of the
/// unsigned product and of the signed product alike.
fn wrapping_product(a: BitSize, b: BitSize) -> (r: BitSize)
    ensures
        r == word(a * b),
        r == word(signed(a) * signed(b)),
{
    assert(0 <= a * b <= 0xffff_ffff * 0xffff_ffff) by (nonlinear_arith)
        requires
            0 <= a <= 0xffff_ffff,
            0 <= b <= 0xffff_ffff,
    ;
    let r: BitSize = ((a as u64 * b as u64) % 0x1_0000_0000) as BitSize;
    proof {
        let ka: int = if a < 0x8000_0000 { 0 } else { 1 };
        let kb: int = if b < 0x8000_0000 { 0 } else { 1 };
        let k: int = ka * kb * 0x1_0000_0000 - ka * b - kb * a;
        assert(signed(a) * signed(b) == 0x1_0000_0000 * k + a * b) by (nonlinear_arith)
            requires
                signed(a) == a - ka * 0x1_0000_0000,
                signed(b) == b - kb * 0x1_0000_0000,
                k == ka * kb * 0x1_0000_0000 - ka * b - kb * a,
        ;
        lemma_mod_multiples_vanish(k, a * b, 0x1_0000_0000);
    }
    r
}

/// Whether `ty` is a division or a remainder.
pub open spec fn is_division(ty: InstructionType) -> bool {
    ty == InstructionType::Div || ty == InstructionType::Idiv || ty == InstructionType::Rem || ty
        == InstructionType::Irem
}

/// Whether `ty` sets its destination to the outcome of a comparison.
pub open spec fn is_comparison(ty: InstructionType) -> bool {
    ty == InstructionType::Se || ty == InstructionType::Sne || ty == InstructionType::Sl || ty
        == InstructionType::Sle || ty == InstructionType::Sg || ty == InstructionType::Sge
}

/// Computes a division or a remainder.
fn alu_divide(ty: InstructionType, a: BitSize, b: BitSize) -> (r: Result<BitSize, CpuError>)
    requires
        is_division(ty),
    ensures
        r == alu_result(ty, a, b),
{
    if a == 0 {
        return Ok(0);
    }
    if b == 0 {
        return Err(CpuError::DivByZero);
    }
    match ty {
        InstructionType::Div => Ok(a / b),
        InstructionType::Rem => Ok(a % b),
        InstructionType::Idiv => {
            let q: BitSize = magnitude_of(a) / magnitude_of(b);
            if (a >= 0x8000_0000) != (b >= 0x8000_0000) {
                Ok(negated(q))
            } else {
                Ok(q)
            }
        },
        _ => {
            let m: BitSize = magnitude_of(a) % magnitude_of(b);
            if a >= 0x8000_0000 {
                Ok(negated(m))
            } else {
                Ok(m)
            }
        },
    }
}

/// Computes the outcome of a comparison: 1 where it holds, else 0.
fn alu_compare(ty: InstructionType, a: BitSize, b: BitSize) -> (r: Result<BitSize, CpuError>)
    requires
        is_comparison(ty),
    ensures
        r == alu_result(ty, a, b),
{
    let holds = match ty {
        InstructionType::Se => a == b,
        InstructionType::Sne => a != b,
        InstructionType::Sl => signed_lt(a, b),
        InstructionType::Sle => !signed_lt(b, a),
        InstructionType::Sg => signed_lt(b, a),
        _ => !signed_lt(a, b),
    };
    if holds {
        Ok(1)
    } else {
        Ok(0)
    }
}

/// Computes what an arithmetic or logic instruction of kind `ty` gives on
/// the operands `a` and `b`.
pub fn alu(ty: InstructionType, a: BitSize, b: BitSize) -> (r: Result<BitSize, CpuError>)
    ensures
        r == alu_result(ty, a, b),
{
    let s: BitSize = b % 32;
    match ty {
        InstructionType::Nand => Ok(!(a & b)),
        InstructionType::Or => Ok(a | b),
        InstructionType::And => Ok(a & b),
        InstructionType::Nor => Ok(!(a | b)),
        InstructionType::Add => Ok(((a as u64 + b as u64) % 0x1_0000_0000) as BitSize),
        InstructionType::Sub => Ok(
            ((a as u64 + 0x1_0000_0000 - b as u64) % 0x1_0000_0000) as BitSize,
        ),
        InstructionType::Xor => Ok(a ^ b),
        InstructionType::Lsl => Ok(a << s),
        InstructionType::Lsr => Ok(a >> s),
        InstructionType::Mul => Ok(wrapping_product(a, b)),
        InstructionType::Imul => Ok(wrapping_product(a, b)),
        InstructionType::Div | InstructionType::Idiv | InstructionType::Rem
        | InstructionType::Irem => alu_divide(ty, a, b),
        InstructionType::Inc => Ok(((a as u64 + 1) % 0x1_0000_0000) as BitSize),
        InstructionType::Dec => Ok(
            ((a as u64 + 0x1_0000_0000 - 1) % 0x1_0000_0000) as BitSize,
        ),
        InstructionType::Se | InstructionType::Sne | InstructionType::Sl | InstructionType::Sle
        | InstructionType::Sg | InstructionType::Sge => alu_compare(ty, a, b),
        InstructionType::Asr => {
            if a < 0x8000_0000 {
                Ok(a >> s)
            } else {
                Ok(!((!a) >> s))
            }
        },
        InstructionType::Mov => Ok(b),
        _ => Ok(0),
    }
}

/// Decides whether a conditional jump of kind `ty` is taken.
pub fn takes_jump(ty: InstructionType, a: BitSize, b: BitSize) -> (r: bool)
    ensures
        r == jump_taken(ty, a, b),
{
    match ty {
        InstructionType::Jmp => true,
        InstructionType::Je => a == b,
        InstructionType::Jne => a != b,
        InstructionType::Jl => signed_lt(a, b),
        InstructionType::Jge => !signed_lt(a, b),
        InstructionType::Jle => !signed_lt(b, a),
        InstructionType::Jg => signed_lt(b, a),
        InstructionType::Jb => a < b,
        InstructionType::Jae => a >= b,
        InstructionType::Jbe => a <= b,
        InstructionType::Ja => a > b,
        _ => false,
    }
}

/// The mask that holds read access alone.
pub open spec fn read_only() -> Protection {
    Protection::of_spec(Prot::Read)
}

/// The mask that holds write access alone.
pub open spec fn write_only() -> Protection {
    Protection::of_spec(Prot::Write)
}

/// The store after `value` is written at the stack pointer `sp`.
pub open spec fn pushed(mem: Seq<u8>, sp: int, value: BitSize) -> Seq<u8> {
    overwrite(mem, sp, value.to_le_spec())
}

/// The word that lies at the stack pointer `sp`.
pub open spec fn top_word(mem: Seq<u8>, sp: int) -> BitSize {
    <BitSize as FromBytes>::from_le_spec(mem.subrange(sp, sp + 4))
}

/// The store after the words of `values` are pushed in turn, from the
/// stack pointer `sp` downwards.
pub open spec fn push_all(mem: Seq<u8>, sp: int, values: Seq<BitSize>) -> Seq<u8>
    decreases values.len(),
{
    if values.len() == 0 {
        mem
    } else {
        pushed(push_all(mem, sp, values.drop_last()), sp - 4 * values.len(), values.last())
    }
}

/// The `n` words that are popped in turn, from the stack pointer `sp`
/// upwards.
pub open spec fn pop_all(mem: Seq<u8>, sp: int, n: nat) -> Seq<BitSize>
    decreases n,
{
    if n == 0 {
        Seq::empty()
    } else {
        seq![top_word(mem, sp)] + pop_all(mem, sp + 4, (n - 1) as nat)
    }
}

/// What a push of `value` gives: the new stack pointer and the new store.
/// It fails with a stack overflow where the stack pointer is below 4, and
/// with a page fault where the slot cannot be read and written.
pub open spec fn push_result(cpu: Cpu, mmu: MmuView, value: BitSize) -> Result<
    (BitSize, Seq<u8>),
    CpuError,
> {
    if cpu.gp.sp < 4 {
        Err(CpuError::StackOverflow(cpu.pc))
    } else {
        let sp = (cpu.gp.sp - 4) as BitSize;
        match mmu.fault_in(stack_slot(sp), read_write()) {
            Some(lack) => Err(CpuError::Mem(MemError::PageFault(lack))),
            None => Ok((sp, pushed(mmu.mem, sp as int, value))),
        }
    }
}

/// What a pop gives: the word on top of the stack and the new stack
/// pointer. It fails with a stack underflow where the stack pointer plus 4
/// lies past the last address, and with a page fault where the slot cannot
/// be read and written.
pub open spec fn pop_result(cpu: Cpu, mmu: MmuView) -> Result<(BitSize, BitSize), CpuError> {
    if cpu.gp.sp + 4 > BitSize::MAX {
        Err(CpuError::StackUnderflow(cpu.gp.sp))
    } else {
        match mmu.fault_in(stack_slot(cpu.gp.sp), read_write()) {
            Some(lack) => Err(CpuError::Mem(MemError::PageFault(lack))),
            None => Ok((top_word(mmu.mem, cpu.gp.sp as int), (cpu.gp.sp + 4) as BitSize)),
        }
    }
}

/// What a load of `width` bytes (1, 2 or 4) at `addr` gives: the
/// little-endian value there, with zeros above it.
pub open spec fn load_result(mmu: MmuView, addr: BitSize, width: nat) -> Result<BitSize, CpuError> {
    match mmu.access_error(addr, width, read_only()) {
        Some(e) => Err(mem_error(e)),
        None => {
            let bytes = mmu.mem.subrange(addr as int, addr + width);
            if width == 1 {
                Ok(<u8 as FromBytes>::from_le_spec(bytes) as BitSize)
            } else if width == 2 {
                Ok(<u16 as FromBytes>::from_le_spec(bytes) as BitSize)
            } else {
                Ok(<BitSize as FromBytes>::from_le_spec(bytes))
            }
        },
    }
}

/// The low `width` bytes (1, 2 or 4) of `value`, lowest first.
pub open spec fn low_bytes(value: BitSize, width: nat) -> Seq<u8> {
    if width == 1 {
        ((value % 0x100) as u8).to_le_spec()
    } else if width == 2 {
        ((value % 0x1_0000) as u16).to_le_spec()
    } else {
        value.to_le_spec()
    }
}

/// What a store of the low `width` bytes (1, 2 or 4) of `value` at `addr`
/// gives: the new store.
pub open spec fn store_result(mmu: MmuView, addr: BitSize, value: BitSize, width: nat) -> Result<
    Seq<u8>,
    CpuError,
> {
    match mmu.access_error(addr, width, write_only()) {
        Some(e) => Err(mem_error(e)),
        None => Ok(overwrite(mmu.mem, addr as int, low_bytes(value, width))),
    }
}

/// The text that a print of the bytes from `low` up to, and not
/// including, `high` hands to the host: none where there is no such byte.
/// It fails with a page fault where one of them cannot be read.
pub open spec fn print_result(mmu: MmuView, low: BitSize, high: BitSize) -> Result<
    Option<Seq<char>>,
    CpuError,
> {
    if low >= high {
        Ok(None)
    } else {
        match mmu.fault_in(AddressRange { start: low, end: (high - 1) as BitSize }, read_only()) {
            Some(lack) => Err(CpuError::Mem(MemError::PageFault(lack))),
            None => Ok(Some(lossy_text(mmu.mem.subrange(low as int, high as int)))),
        }
    }
}

/// The number of bytes that a load of kind `ty` reads.
pub open spec fn load_width(ty: InstructionType) -> nat {
    match ty {
        InstructionType::Ldb => 1,
        InstructionType::Ldw => 2,
        _ => 4,
    }
}

/// The number of bytes that a store of kind `ty` writes.
pub open spec fn store_width(ty: InstructionType) -> nat {
    match ty {
        InstructionType::Strb => 1,
        InstructionType::Strw => 2,
        _ => 4,
    }
}

impl Cpu {
    /// The processor at power-on: the stack pointer at the top of the
    /// address space, everything else zero.
    pub open spec fn initial() -> Cpu {
        Cpu { gp: Registers::initial(), gfx: 0, pc: 0, clk: 0 }
    }

    /// The value of an operand that is the immediate where the instruction
    /// has one, and register `reg` where it has none.
    pub open spec fn operand(self, inst: Instruction, reg: Reg) -> BitSize {
        if inst.has_imm {
            inst.imm
        } else {
            self.gp.get(reg)
        }
    }

    /// The address of the instruction after `inst`.
    pub open spec fn next_pc(self, inst: Instruction) -> BitSize {
        word(self.pc + inst.len_spec())
    }

    /// This processor with the program counter behind `inst`.
    pub open spec fn advanced(self, inst: Instruction) -> Cpu {
        Cpu { pc: self.next_pc(inst), ..self }
    }

    /// This processor with the register file `gp`.
    pub open spec fn with_regs(self, gp: Registers) -> Cpu {
        Cpu { gp, ..self }
    }

    /// What a system instruction, a load or a store does. `Nop` does
    /// nothing; `Hlt` sets the stop flag and leaves the program counter;
    /// `Pr` and `Epr` hand text to the host; `Tme` puts the four limbs of
    /// the time into the registers `a`, `b`, `c`, `d`, lowest first; `Rdpc`
    /// puts the address of this instruction into `dst`; `Setgfx` sets the
    /// graphics base; `Slp` asks the host for a sleep of its operand in
    /// microseconds, registers `a` and `b` being the high and the low half,
    /// and with a steady clock costs that time in cycles; `Rdclk` puts the
    /// low and the high half of the cycle counter into `a` and `b`; the
    /// loads fill `dst` from the address in the operand; the stores write
    /// the operand to the address in `dst`. Every reserved kind fails as
    /// unsupported. All but `Hlt` move the program counter on.
    pub open spec fn system_step(
        self,
        mmu: MmuView,
        inst: Instruction,
        stop: bool,
        cycles: u32,
        steady: bool,
        now: u128,
    ) -> Result<Outcome, CpuError> {
        let plain = Outcome {
            cpu: self.advanced(inst),
            mem: mmu.mem,
            stop,
            cycles,
            effect: EffectView::Nothing,
        };
        match inst.ty {
            InstructionType::Nop => Ok(plain),
            InstructionType::Hlt => Ok(Outcome { cpu: self, stop: true, ..plain }),
            InstructionType::Pr | InstructionType::Epr => {
                match print_result(mmu, self.gp.get(inst.a), self.gp.get(inst.b)) {
                    Err(e) => Err(e),
                    Ok(None) => Ok(plain),
                    Ok(Some(text)) => Ok(
                        Outcome {
                            effect: if inst.ty == InstructionType::Pr {
                                EffectView::Print(text)
                            } else {
                                EffectView::Eprint(text)
                            },
                            ..plain
                        },
                    ),
                }
            },
            InstructionType::Tme => Ok(
                Outcome {
                    cpu: self.with_regs(
                        self.gp.set(inst.a, time_limb(now, 0)).set(inst.b, time_limb(now, 1)).set(
                            inst.c,
                            time_limb(now, 2),
                        ).set(inst.d, time_limb(now, 3)),
                    ).advanced(inst),
                    ..plain
                },
            ),
            InstructionType::Rdpc => Ok(
                Outcome { cpu: self.with_regs(self.gp.set(inst.dst, self.pc)).advanced(inst), ..plain },
            ),
            InstructionType::Setgfx => Ok(
                Outcome {
                    cpu: (Cpu { gfx: self.operand(inst, inst.a), ..self }).advanced(inst),
                    ..plain
                },
            ),
            InstructionType::Slp => {
                let us = if inst.has_imm {
                    inst.imm as u64
                } else {
                    (self.gp.get(inst.a) as int * 0x1_0000_0000 + self.gp.get(inst.b)) as u64
                };
                Ok(
                    Outcome {
                        cycles: if steady && us > 0 {
                            sleep_cycles(us)
                        } else {
                            cycles
                        },
                        effect: EffectView::Sleep(us),
                        ..plain
                    },
                )
            },
            InstructionType::Rdclk => Ok(
                Outcome {
                    cpu: self.with_regs(
                        self.gp.set(inst.a, (self.clk as int % 0x1_0000_0000) as BitSize).set(
                            inst.b,
                            (self.clk as int / 0x1_0000_0000) as BitSize,
                        ),
                    ).advanced(inst),
                    ..plain
                },
            ),
            InstructionType::Ld | InstructionType::Ldw | InstructionType::Ldb => {
                match load_result(mmu, self.operand(inst, inst.a), load_width(inst.ty)) {
                    Err(e) => Err(e),
                    Ok(v) => Ok(
                        Outcome { cpu: self.with_regs(self.gp.set(inst.dst, v)).advanced(inst), ..plain },
                    ),
                }
            },
            InstructionType::Str | InstructionType::Strw | InstructionType::Strb => {
                match store_result(
                    mmu,
                    self.gp.get(inst.dst),
                    self.operand(inst, inst.a),
                    store_width(inst.ty),
                ) {
                    Err(e) => Err(e),
                    Ok(mem) => Ok(Outcome { mem, ..plain }),
                }
            },
            _ => Err(CpuError::UnsupportedInst(inst)),
        }
    }

    /// What an arithmetic or logic instruction does: the destination gets
    /// what [`alu_result`] gives on register `a` and the second operand.
    /// The second operand is the immediate or register `b`; for `Mov`, the
    /// immediate or register `a`.
    pub open spec fn alu_step(self, mmu: MmuView, inst: Instruction, stop: bool, cycles: u32) -> Result<
        Outcome,
        CpuError,
    > {
        let second = if inst.ty == InstructionType::Mov {
            self.operand(inst, inst.a)
        } else {
            self.operand(inst, inst.b)
        };
        match alu_result(inst.ty, self.gp.get(inst.a), second) {
            Err(e) => Err(e),
            Ok(v) => Ok(
                Outcome {
                    cpu: self.with_regs(self.gp.set(inst.dst, v)).advanced(inst),
                    mem: mmu.mem,
                    stop,
                    cycles,
                    effect: EffectView::Nothing,
                },
            ),
        }
    }

    /// What a jump does: where it is taken, the program counter gets the
    /// immediate or register `dst`; where it is not, the program counter
    /// moves behind the instruction.
    pub open spec fn jump_step(self, mmu: MmuView, inst: Instruction, stop: bool, cycles: u32) -> Result<
        Outcome,
        CpuError,
    > {
        let taken = jump_taken(inst.ty, self.gp.get(inst.a), self.gp.get(inst.b));
        Ok(
            Outcome {
                cpu: if taken {
                    Cpu { pc: self.operand(inst, inst.dst), ..self }
                } else {
                    self.advanced(inst)
                },
                mem: mmu.mem,
                stop,
                cycles,
                effect: EffectView::Nothing,
            },
        )
    }

    /// What a stack instruction does.
    pub open spec fn stack_step(self, mmu: MmuView, inst: Instruction, stop: bool) -> Result<
        Outcome,
        CpuError,
    > {
        match inst.ty {
            InstructionType::Push => match push_result(self, mmu, self.gp.get(inst.a)) {
                Err(e) => Err(e),
                Ok((sp, mem)) => Ok(
                    Outcome {
                        cpu: self.with_regs(Registers { sp, ..self.gp }).advanced(inst),
                        mem,
                        stop,
                        cycles: 2,
                        effect: EffectView::Nothing,
                    },
                ),
            },
            InstructionType::Pop => match pop_result(self, mmu) {
                Err(e) => Err(e),
                Ok((value, sp)) => Ok(
                    Outcome {
                        cpu: self.with_regs((Registers { sp, ..self.gp }).set(inst.dst, value)).advanced(
                            inst,
                        ),
                        mem: mmu.mem,
                        stop,
                        cycles: 2,
                        effect: EffectView::Nothing,
                    },
                ),
            },
            InstructionType::Call => match push_result(self, mmu, self.gp.ra) {
                Err(e) => Err(e),
                Ok((sp, mem)) => {
                    let pushed = self.with_regs(Registers { sp, ..self.gp });
                    Ok(
                        Outcome {
                            cpu: Cpu {
                                gp: Registers { ra: self.next_pc(inst), ..pushed.gp },
                                pc: pushed.operand(inst, inst.a),
                                ..self
                            },
                            mem,
                            stop,
                            cycles: 3,
                            effect: EffectView::Nothing,
                        },
                    )
                },
            },
            _ => match pop_result(self, mmu) {
                Err(e) => Err(e),
                Ok((value, sp)) => Ok(
                    Outcome {
                        cpu: Cpu { gp: Registers { sp, ra: value, ..self.gp }, pc: self.gp.ra, ..self },
                        mem: mmu.mem,
                        stop,
                        cycles: 2,
                        effect: EffectView::Nothing,
                    },
                ),
            },
        }
    }

    /// What the instruction `inst` does to the processor `self`, the store
    /// of `mmu`, the stop flag and the cycle count, when the clock reads
    /// `now` nanoseconds: the family of the instruction decides.
    pub open spec fn step_spec(
        self,
        mmu: MmuView,
        inst: Instruction,
        stop: bool,
        cycles: u32,
        steady: bool,
        now: u128,
    ) -> Result<Outcome, CpuError> {
        if inst.ty.mode_spec() == 1 {
            self.alu_step(mmu, inst, stop, cycles)
        } else if inst.ty.mode_spec() == 2 {
            self.jump_step(mmu, inst, stop, cycles)
        } else if inst.ty.mode_spec() == 3 {
            self.stack_step(mmu, inst, stop)
        } else {
            self.system_step(mmu, inst, stop, cycles, steady, now)
        }
    }

    /// A processor at power-on.
    pub fn new() -> (cpu: Cpu)
        ensures
            cpu == Cpu::initial(),
    {
        Cpu { gp: Registers::default(), gfx: 0, pc: 0, clk: 0 }
    }

    /// Puts the processor back to power-on.
    pub fn zeroize(&mut self)
        ensures
            *final(self) == Cpu::initial(),
    {
        *self = Cpu::new();
    }

    /// The immediate of `inst` where it has one, else register `reg`.
    pub fn operand_value(&self, inst: &Instruction, reg: Reg) -> (v: BitSize)
        ensures
            v == self.operand(*inst, reg),
    {
        if inst.has_imm {
            inst.imm
        } else {
            self.gp.get_reg(reg)
        }
    }

    /// Moves the program counter behind `inst`.
    fn advance(&mut self, inst: &Instruction)
        ensures
            *final(self) == old(self).advanced(*inst),
    {
        self.pc = ((self.pc as u64 + inst.len() as u64) % 0x1_0000_0000) as BitSize;
    }

    /// Pushes `value`: moves the stack pointer down by 4 and writes the
    /// word there.
    fn push_word(&mut self, mmu: &mut Mmu, value: BitSize) -> (r: Result<(), CpuError>)
        requires
            old(mmu).wf(),
        ensures
            final(mmu).wf(),
            final(mmu)@.prot == old(mmu)@.prot,
            match push_result(*old(self), old(mmu)@, value) {
                Ok((sp, mem)) => r is Ok && *final(self) == old(self).with_regs(
                    Registers { sp, ..old(self).gp },
                ) && final(mmu).memory() == mem,
                Err(e) => r == Err::<(), CpuError>(e) && *final(self) == *old(self) && final(mmu).memory() == old(mmu).memory(),
            },
    {
        if self.gp.sp < 4 {
            return Err(CpuError::StackOverflow(self.pc));
        }
        let sp: BitSize = self.gp.sp - 4;
        let need = Protection::of(Prot::Read).with(Prot::Write);
        match mmu.check_prot(AddressRange::inclusive(sp, sp + 3), need) {
            Err(e) => {
                return Err(CpuError::Mem(e));
            },
            Ok(()) => {},
        }
        let _ = mmu.write_unchecked::<BitSize>(sp, value);
        self.gp.sp = sp;
        Ok(())
    }

    /// Pops a word: reads it at the stack pointer and moves the stack
    /// pointer up by 4.
    fn pop_word(&mut self, mmu: &Mmu) -> (r: Result<BitSize, CpuError>)
        requires
            mmu.wf(),
        ensures
            match pop_result(*old(self), mmu@) {
                Ok((value, sp)) => r == Ok::<BitSize, CpuError>(value) && *final(self) == old(self).with_regs(Registers { sp, ..old(self).gp }),
                Err(e) => r == Err::<BitSize, CpuError>(e) && *final(self) == *old(self),
            },
    {
        if self.gp.sp > BitSize::MAX - 4 {
            return Err(CpuError::StackUnderflow(self.gp.sp));
        }
        let sp: BitSize = self.gp.sp;
        let need = Protection::of(Prot::Read).with(Prot::Write);
        match mmu.check_prot(AddressRange::inclusive(sp, sp + 3), need) {
            Err(e) => {
                return Err(CpuError::Mem(e));
            },
            Ok(()) => {},
        }
        match mmu.read_unchecked::<BitSize>(sp) {
            Ok(value) => {
                self.gp.sp = sp + 4;
                Ok(value)
            },
            Err(e) => Err(cpu_error(e)),
        }
    }
}

/// The processor's error for a refused memory access.
pub fn cpu_error(e: MemError) -> (r: CpuError)
    ensures
        r == mem_error(e),
{
    match e {
        MemError::Overflow => CpuError::Overflow,
        MemError::PageFault(_) => CpuError::Mem(e),
    }
}

/// Whether the result `r` and the state after a step are what `expected`
/// says: on success the state of the outcome, on failure the error and the
/// state from before the step.
pub open spec fn realizes(
    expected: Result<Outcome, CpuError>,
    r: Result<Effect, CpuError>,
    before: Outcome,
    after: Outcome,
) -> bool {
    match expected {
        Ok(out) => {
            &&& r is Ok
            &&& r->Ok_0@ == out.effect
            &&& after.cpu == out.cpu
            &&& after.mem == out.mem
            &&& after.stop == out.stop
            &&& after.cycles == out.cycles
        },
        Err(e) => {
            &&& r is Err
            &&& r->Err_0 == e
            &&& after.cpu == before.cpu
            &&& after.mem == before.mem
            &&& after.stop == before.stop
            &&& after.cycles == before.cycles
        },
    }
}

/// The state of a machine as an [`Outcome`] with no effect.
pub open spec fn state_of(cpu: Cpu, mmu: MmuView, stop: bool, cycles: u32) -> Outcome {
    Outcome { cpu, mem: mmu.mem, stop, cycles, effect: EffectView::Nothing }
}

/// The four 32-bit limbs of a 128-bit time, lowest first.
fn time_limbs(now: u128) -> (limbs: [BitSize; 4])
    ensures
        limbs[0] == time_limb(now, 0),
        limbs[1] == time_limb(now, 1),
        limbs[2] == time_limb(now, 2),
        limbs[3] == time_limb(now, 3),
{
    let l0: BitSize = (now & 0xffff_ffff) as BitSize;
    let l1: BitSize = ((now >> 32) & 0xffff_ffff) as BitSize;
    let l2: BitSize = ((now >> 64) & 0xffff_ffff) as BitSize;
    let l3: BitSize = ((now >> 96) & 0xffff_ffff) as BitSize;
    assert(now & 0xffff_ffff == now % 0x1_0000_0000 && (now >> 32) & 0xffff_ffff == now
        / 0x1_0000_0000 % 0x1_0000_0000 && (now >> 64) & 0xffff_ffff == now
        / 0x1_0000_0000_0000_0000 % 0x1_0000_0000 && (now >> 96) & 0xffff_ffff == now
        / 0x1_0000_0000_0000_0000_0000_0000 % 0x1_0000_0000) by (bit_vector);
    [l0, l1, l2, l3]
}

/// The cycles that a sleep of `us` microseconds costs when the clock is
/// steady.
pub fn cycles_of_sleep(us: u64) -> (n: u32)
    ensures
        n == sleep_cycles(us),
{
    let t: u64 = if us < 5 { 5 } else { us };
    let units: u64 = t / 5 + (if t % 5 != 0 { 1 } else { 0 });
    (units % 0x1_0000_0000) as u32
}

/// What a print of kind `ty` asks of the host for the text `text`: `Pr`
/// writes it to the standard output, `Epr` to the standard error.
pub fn print_effect(ty: InstructionType, text: String) -> (effect: Effect)
    ensures
        effect@ == if ty == InstructionType::Pr {
            EffectView::Print(text@)
        } else {
            EffectView::Eprint(text@)
        },
{
    match ty {
        InstructionType::Pr => Effect::Print(text),
        _ => Effect::Eprint(text),
    }
}

/// Reads the bytes from `low` up to, and not including, `high` as text
/// for the host.
fn print_text(mmu: &Mmu, low: BitSize, high: BitSize) -> (r: Result<Option<String>, CpuError>)
    requires
        mmu.wf(),
    ensures
        match print_result(mmu@, low, high) {
            Err(e) => r is Err && r->Err_0 == e,
            Ok(None) => r is Ok && r->Ok_0 is None,
            Ok(Some(text)) => r is Ok && r->Ok_0 is Some && r->Ok_0->Some_0@ == text,
        },
{
    if low >= high {
        return Ok(None);
    }
    let range = AddressRange::inclusive(low, high - 1);
    match mmu.check_prot(range, Protection::of(Prot::Read)) {
        Err(e) => {
            return Err(CpuError::Mem(e));
        },
        Ok(()) => {},
    }
    let len: usize = (high - low) as usize;
    let mut buf: Vec<u8> = vec![0u8; len];
    let _ = mmu.memcpy(low, &mut buf);
    Ok(Some(text_of_bytes(&buf)))
}

/// Loads the value that a load of kind `ty` reads at `addr`.
fn load_value(mmu: &Mmu, addr: BitSize, ty: InstructionType) -> (r: Result<BitSize, CpuError>)
    requires
        mmu.wf(),
    ensures
        r == load_result(mmu@, addr, load_width(ty)),
{
    match ty {
        InstructionType::Ldb => match mmu.read::<u8>(addr) {
            Ok(v) => Ok(v as BitSize),
            Err(e) => Err(cpu_error(e)),
        },
        InstructionType::Ldw => match mmu.read::<u16>(addr) {
            Ok(v) => Ok(v as BitSize),
            Err(e) => Err(cpu_error(e)),
        },
        _ => match mmu.read::<BitSize>(addr) {
            Ok(v) => Ok(v),
            Err(e) => Err(cpu_error(e)),
        },
    }
}

/// Stores what a store of kind `ty` writes of `value` at `addr`.
fn store_value(mmu: &mut Mmu, addr: BitSize, value: BitSize, ty: InstructionType) -> (r: Result<
    (),
    CpuError,
>)
    requires
        old(mmu).wf(),
    ensures
        final(mmu).wf(),
        final(mmu)@.prot == old(mmu)@.prot,
        match store_result(old(mmu)@, addr, value, store_width(ty)) {
            Ok(mem) => r is Ok && final(mmu).memory() == mem,
            Err(e) => r == Err::<(), CpuError>(e) && final(mmu).memory() == old(mmu).memory(),
        },
{
    assert(value & 0xff == value % 0x100 && value & 0xffff == value % 0x1_0000) by (bit_vector);
    let res = match ty {
        InstructionType::Strb => mmu.write::<u8>(addr, (value & 0xff) as u8),
        InstructionType::Strw => mmu.write::<u16>(addr, (value & 0xffff) as u16),
        _ => mmu.write::<BitSize>(addr, value),
    };
    match res {
        Ok(()) => Ok(()),
        Err(e) => Err(cpu_error(e)),
    }
}

impl Cpu {
    /// The address of the instruction after `inst`.
    fn next_pc_value(&self, inst: &Instruction) -> (pc: BitSize)
        ensures
            pc == self.next_pc(*inst),
    {
        ((self.pc as u64 + inst.len() as u64) % 0x1_0000_0000) as BitSize
    }

    /// Executes a system instruction.
    #[verifier::rlimit(30)]
    fn exec_system(
        &mut self,
        inst: Instruction,
        mmu: &mut Mmu,
        stop: &mut bool,
        clk: &mut u32,
        steady: bool,
        now: u128,
    ) -> (r: Result<Effect, CpuError>)
        requires
            old(mmu).wf(),
        ensures
            final(mmu).wf(),
            final(mmu)@.prot == old(mmu)@.prot,
            realizes(
                old(self).system_step(old(mmu)@, inst, *old(stop), *old(clk), steady, now),
                r,
                state_of(*old(self), old(mmu)@, *old(stop), *old(clk)),
                state_of(*final(self), final(mmu)@, *final(stop), *final(clk)),
            ),
    {
        match inst.ty {
            InstructionType::Nop => {
                self.advance(&inst);
                Ok(Effect::Nothing)
            },
            InstructionType::Hlt => {
                *stop = true;
                Ok(Effect::Nothing)
            },
            InstructionType::Pr | InstructionType::Epr => {
                let low = self.gp.get_reg(inst.a);
                let high = self.gp.get_reg(inst.b);
                match print_text(mmu, low, high) {
                    Err(e) => Err(e),
                    Ok(None) => {
                        self.advance(&inst);
                        Ok(Effect::Nothing)
                    },
                    Ok(Some(text)) => {
                        self.advance(&inst);
                        Ok(print_effect(inst.ty, text))
                    },
                }
            },
            InstructionType::Tme => {
                let limbs = time_limbs(now);
                self.gp.set_reg(inst.a, limbs[0]);
                self.gp.set_reg(inst.b, limbs[1]);
                self.gp.set_reg(inst.c, limbs[2]);
                self.gp.set_reg(inst.d, limbs[3]);
                self.advance(&inst);
                Ok(Effect::Nothing)
            },
            InstructionType::Rdpc => {
                let pc = self.pc;
                self.gp.set_reg(inst.dst, pc);
                self.advance(&inst);
                Ok(Effect::Nothing)
            },
            InstructionType::Setgfx => {
                self.gfx = self.operand_value(&inst, inst.a);
                self.advance(&inst);
                Ok(Effect::Nothing)
            },
            InstructionType::Slp => {
                let us: u64 = if inst.has_imm {
                    inst.imm as u64
                } else {
                    let high = self.gp.get_reg(inst.a);
                    let low = self.gp.get_reg(inst.b);
                    assert(((high as u64) << 32) | (low as u64) == high as u64 * 0x1_0000_0000
                        + low as u64) by (bit_vector);
                    ((high as u64) << 32) | (low as u64)
                };
                if steady && us > 0 {
                    *clk = cycles_of_sleep(us);
                }
                self.advance(&inst);
                Ok(Effect::Sleep(us))
            },
            InstructionType::Rdclk => {
                let clock = self.clk;
                assert(clock & 0xffff_ffff == clock % 0x1_0000_0000 && clock >> 32 == clock
                    / 0x1_0000_0000 && (clock >> 32) <= 0xffff_ffff) by (bit_vector);
                let low: BitSize = (clock & 0xffff_ffff) as BitSize;
                let high: BitSize = (clock >> 32) as BitSize;
                self.gp.set_reg(inst.a, low);
                self.gp.set_reg(inst.b, high);
                self.advance(&inst);
                Ok(Effect::Nothing)
            },
            InstructionType::Ld | InstructionType::Ldw | InstructionType::Ldb => {
                let addr = self.operand_value(&inst, inst.a);
                match load_value(mmu, addr, inst.ty) {
                    Err(e) => Err(e),
                    Ok(v) => {
                        self.gp.set_reg(inst.dst, v);
                        self.advance(&inst);
                        Ok(Effect::Nothing)
                    },
                }
            },
            InstructionType::Str | InstructionType::Strw | InstructionType::Strb => {
                let addr = self.gp.get_reg(inst.dst);
                let value = self.operand_value(&inst, inst.a);
                match store_value(mmu, addr, value, inst.ty) {
                    Err(e) => Err(e),
                    Ok(()) => {
                        self.advance(&inst);
                        Ok(Effect::Nothing)
                    },
                }
            },
            _ => Err(CpuError::UnsupportedInst(inst)),
        }
    }

    /// Executes a stack instruction.
    #[verifier::rlimit(30)]
    fn exec_stack(&mut self, inst: Instruction, mmu: &mut Mmu, clk: &mut u32) -> (r: Result<
        Effect,
        CpuError,
    >)
        requires
            old(mmu).wf(),
        ensures
            final(mmu).wf(),
            final(mmu)@.prot == old(mmu)@.prot,
            forall|stop: bool|
                realizes(
                    #[trigger] old(self).stack_step(old(mmu)@, inst, stop),
                    r,
                    state_of(*old(self), old(mmu)@, stop, *old(clk)),
                    state_of(*final(self), final(mmu)@, stop, *final(clk)),
                ),
    {
        match inst.ty {
            InstructionType::Push => {
                let value = self.gp.get_reg(inst.a);
                match self.push_word(mmu, value) {
                    Err(e) => Err(e),
                    Ok(()) => {
                        self.advance(&inst);
                        *clk = 2;
                        Ok(Effect::Nothing)
                    },
                }
            },
            InstructionType::Pop => match self.pop_word(mmu) {
                Err(e) => Err(e),
                Ok(value) => {
                    self.gp.set_reg(inst.dst, value);
                    self.advance(&inst);
                    *clk = 2;
                    Ok(Effect::Nothing)
                },
            },
            InstructionType::Call => {
                let ra = self.gp.ra;
                let back = self.next_pc_value(&inst);
                match self.push_word(mmu, ra) {
                    Err(e) => Err(e),
                    Ok(()) => {
                        let target = self.operand_value(&inst, inst.a);
                        self.gp.ra = back;
                        self.pc = target;
                        *clk = 3;
                        Ok(Effect::Nothing)
                    },
                }
            },
            _ => {
                let ra = self.gp.ra;
                match self.pop_word(mmu) {
                    Err(e) => Err(e),
                    Ok(value) => {
                        self.pc = ra;
                        self.gp.ra = value;
                        *clk = 2;
                        Ok(Effect::Nothing)
                    },
                }
            },
        }
    }

    /// Executes `inst` at a given reading of the clock: `now` nanoseconds
    /// since the Unix epoch. On success the processor, the store, the stop
    /// flag and the cycle count are what [`Cpu::step_spec`] gives, and the
    /// result is its effect; on failure the result is its error and nothing
    /// has changed. The protection masks always stay.
    #[verifier::rlimit(30)]
    pub fn process_at(
        &mut self,
        inst: Instruction,
        mmu: &mut Mmu,
        stop: &mut bool,
        clk: &mut u32,
        steady: bool,
        now: u128,
    ) -> (r: Result<Effect, CpuError>)
        requires
            old(mmu).wf(),
        ensures
            final(mmu).wf(),
            final(mmu)@.prot == old(mmu)@.prot,
            realizes(
                old(self).step_spec(old(mmu)@, inst, *old(stop), *old(clk), steady, now),
                r,
                state_of(*old(self), old(mmu)@, *old(stop), *old(clk)),
                state_of(*final(self), final(mmu)@, *final(stop), *final(clk)),
            ),
    {
        let mode = inst.ty.mode();
        if mode == 1 {
            let first = self.gp.get_reg(inst.a);
            let second = match inst.ty {
                InstructionType::Mov => self.operand_value(&inst, inst.a),
                _ => self.operand_value(&inst, inst.b),
            };
            match alu(inst.ty, first, second) {
                Err(e) => Err(e),
                Ok(v) => {
                    self.gp.set_reg(inst.dst, v);
                    self.advance(&inst);
                    Ok(Effect::Nothing)
                },
            }
        } else if mode == 2 {
            let a = self.gp.get_reg(inst.a);
            let b = self.gp.get_reg(inst.b);
            if takes_jump(inst.ty, a, b) {
                self.pc = self.operand_value(&inst, inst.dst);
            } else {
                self.advance(&inst);
            }
            Ok(Effect::Nothing)
        } else if mode == 3 {
            self.exec_stack(inst, mmu, clk)
        } else {
            self.exec_system(inst, mmu, stop, clk, steady, now)
        }
    }

    /// Executes `inst`, reading the clock where the instruction asks the
    /// time. What it does is what [`Cpu::process_at`] does at some reading
    /// of the clock; for every instruction but `Tme`, at every reading.
    pub fn process(
        &mut self,
        inst: Instruction,
        mmu: &mut Mmu,
        stop: &mut bool,
        clk: &mut u32,
        steady: bool,
    ) -> (r: Result<Effect, CpuError>)
        requires
            old(mmu).wf(),
        ensures
            final(mmu).wf(),
            final(mmu)@.prot == old(mmu)@.prot,
            exists|now: u128|
                realizes(
                    #[trigger] old(self).step_spec(
                        old(mmu)@,
                        inst,
                        *old(stop),
                        *old(clk),
                        steady,
                        now,
                    ),
                    r,
                    state_of(*old(self), old(mmu)@, *old(stop), *old(clk)),
                    state_of(*final(self), final(mmu)@, *final(stop), *final(clk)),
                ),
            inst.ty != InstructionType::Tme ==> realizes(
                old(self).step_spec(old(mmu)@, inst, *old(stop), *old(clk), steady, 0),
                r,
                state_of(*old(self), old(mmu)@, *old(stop), *old(clk)),
                state_of(*final(self), final(mmu)@, *final(stop), *final(clk)),
            ),
    {
        let now: u128 = match inst.ty {
            InstructionType::Tme => match unix_time_nanos() {
                Some(t) => t,
                None => 0,
            },
            _ => 0,
        };
        self.process_at(inst, mmu, stop, clk, steady, now)
    }
}


/// The word on top of the stack after a push is the word that was pushed.
pub proof fn lemma_top_of_pushed(mem: Seq<u8>, sp: int, value: BitSize)
    requires
        0 <= sp,
        sp + 4 <= mem.len(),
    ensures
        top_word(pushed(mem, sp, value), sp) == value,
{
    let after = pushed(mem, sp, value);
    assert(after.subrange(sp, sp + 4) =~= value.to_le_spec());
    lemma_le_bytes_round_trip(value);
}

/// A push below the slots that pops read does not change what they pop.
pub proof fn lemma_pops_above_push(mem: Seq<u8>, at: int, value: BitSize, sp: int, n: nat)
    requires
        0 <= at,
        at + 4 <= sp,
        sp + 4 * n <= mem.len(),
    ensures
        pop_all(pushed(mem, at, value), sp, n) == pop_all(mem, sp, n),
    decreases n,
{
    if n > 0 {
        let after = pushed(mem, at, value);
        assert(after.subrange(sp, sp + 4) =~= mem.subrange(sp, sp + 4));
        lemma_pops_above_push(mem, at, value, sp + 4, (n - 1) as nat);
    }
}

/// A push keeps the size of the store.
pub proof fn lemma_push_all_len(mem: Seq<u8>, sp: int, values: Seq<BitSize>)
    ensures
        push_all(mem, sp, values).len() == mem.len(),
    decreases values.len(),
{
    if values.len() > 0 {
        lemma_push_all_len(mem, sp, values.drop_last());
    }
}

/// Last in, first out: after the words of `values` are pushed in turn, as
/// many pops give them back in reverse order, and the stack pointer, moved
/// down by 4 for each push and up by 4 for each pop, is back where it was.
pub proof fn lemma_stack_lifo(mem: Seq<u8>, sp: int, values: Seq<BitSize>)
    requires
        4 * values.len() <= sp <= mem.len(),
    ensures
        pop_all(push_all(mem, sp, values), sp - 4 * values.len(), values.len())
            == values.reverse(),
        sp - 4 * values.len() + 4 * values.len() == sp,
    decreases values.len(),
{
    let n = values.len();
    if n > 0 {
        let init = values.drop_last();
        let below = push_all(mem, sp, init);
        let at = sp - 4 * n;
        lemma_push_all_len(mem, sp, init);
        lemma_stack_lifo(mem, sp, init);
        lemma_top_of_pushed(below, at, values.last());
        lemma_pops_above_push(below, at, values.last(), at + 4, init.len());
        assert(values.reverse() =~= seq![values.last()] + init.reverse());
    } else {
        assert(values.reverse() =~= Seq::<BitSize>::empty());
    }
}

/// An instruction that is no jump, call, return or halt moves the program
/// counter behind itself: by 4 without an immediate, by 8 with one, modulo
/// 2^32. A jump that is taken sets the program counter to its target; one
/// that is not moves it behind the jump.
pub proof fn lemma_pc_advance(
    cpu: Cpu,
    mmu: MmuView,
    inst: Instruction,
    stop: bool,
    cycles: u32,
    steady: bool,
    now: u128,
)
    requires
        cpu.step_spec(mmu, inst, stop, cycles, steady, now) is Ok,
    ensures
        ({
            let out = cpu.step_spec(mmu, inst, stop, cycles, steady, now)->Ok_0;
            let len: int = if inst.has_imm { 8 } else { 4 };
            let behind = word(cpu.pc + len);
            let taken = jump_taken(inst.ty, cpu.gp.get(inst.a), cpu.gp.get(inst.b));
            &&& cpu.pc + len <= BitSize::MAX ==> behind == cpu.pc + len
            &&& inst.ty.mode_spec() == 2 && taken ==> out.cpu.pc == cpu.operand(inst, inst.dst)
            &&& inst.ty.mode_spec() == 2 && !taken ==> out.cpu.pc == behind
            &&& inst.ty.mode_spec() != 2 && inst.ty != InstructionType::Call && inst.ty
                != InstructionType::Ret && inst.ty != InstructionType::Hlt ==> out.cpu.pc == behind
        }),
{
}

/// A division or a remainder whose dividend, register `a`, is zero puts
/// zero into its destination, whatever the divisor.
pub proof fn lemma_zero_dividend(
    cpu: Cpu,
    mmu: MmuView,
    inst: Instruction,
    stop: bool,
    cycles: u32,
    steady: bool,
    now: u128,
)
    requires
        is_division(inst.ty),
        cpu.gp.get(inst.a) == 0,
    ensures
        forall|b: BitSize| alu_result(inst.ty, 0, b) == Ok::<BitSize, CpuError>(0),
        cpu.step_spec(mmu, inst, stop, cycles, steady, now) is Ok,
        cpu.step_spec(mmu, inst, stop, cycles, steady, now)->Ok_0.cpu.gp == cpu.gp.set(
            inst.dst,
            0,
        ),
{
}

/// A call and the return that follows it at once: the program counter is
/// behind the call, and the registers, the return address and the stack
/// pointer among them, are what they were before the call.
pub proof fn lemma_call_ret(
    cpu: Cpu,
    mmu: MmuView,
    call: Instruction,
    ret: Instruction,
    stop: bool,
    cycles: u32,
    steady: bool,
    now: u128,
)
    requires
        call.ty == InstructionType::Call,
        ret.ty == InstructionType::Ret,
        mmu.mem.len() == mem_size(),
        cpu.step_spec(mmu, call, stop, cycles, steady, now) is Ok,
    ensures
        ({
            let called = cpu.step_spec(mmu, call, stop, cycles, steady, now)->Ok_0;
            let back = called.cpu.step_spec(
                mmu.with_mem(called.mem),
                ret,
                stop,
                cycles,
                steady,
                now,
            );
            &&& back is Ok
            &&& back->Ok_0.cpu.pc == cpu.next_pc(call)
            &&& back->Ok_0.cpu.gp.ra == cpu.gp.ra
            &&& back->Ok_0.cpu.gp.sp == cpu.gp.sp
            &&& back->Ok_0.cpu.gp == cpu.gp
        }),
{
    let sp = (cpu.gp.sp - 4) as BitSize;
    let called = cpu.step_spec(mmu, call, stop, cycles, steady, now)->Ok_0;
    lemma_fault_same_masks(
        mmu,
        mmu.with_mem(called.mem),
        stack_slot(sp).first_page(),
        stack_slot(sp).last_page(),
        read_write(),
    );
    lemma_top_of_pushed(mmu.mem, sp as int, cpu.gp.ra);
}

/// What a check finds depends on the protection masks alone.
pub proof fn lemma_fault_same_masks(m1: MmuView, m2: MmuView, page: int, last: int, req: Protection)
    requires
        m1.prot == m2.prot,
    ensures
        m1.fault_from(page, last, req) == m2.fault_from(page, last, req),
    decreases last - page + 1,
{
    if page <= last {
        lemma_fault_same_masks(m1, m2, page + 1, last, req);
    }
}

/// A push and the pop that follows it at once: the destination of the pop
/// observes the register that was pushed, and the stack pointer is back
/// where it was.
pub proof fn lemma_push_pop(
    cpu: Cpu,
    mmu: MmuView,
    push: Instruction,
    pop: Instruction,
    stop: bool,
    cycles: u32,
    steady: bool,
    now: u128,
)
    requires
        push.ty == InstructionType::Push,
        pop.ty == InstructionType::Pop,
        mmu.mem.len() == mem_size(),
        cpu.step_spec(mmu, push, stop, cycles, steady, now) is Ok,
    ensures
        ({
            let pushed = cpu.step_spec(mmu, push, stop, cycles, steady, now)->Ok_0;
            let popped = pushed.cpu.step_spec(
                mmu.with_mem(pushed.mem),
                pop,
                stop,
                cycles,
                steady,
                now,
            );
            &&& popped is Ok
            &&& popped->Ok_0.cpu.gp == cpu.gp.set(pop.dst, cpu.gp.get(push.a))
            &&& pop.dst != Reg::Zr ==> popped->Ok_0.cpu.gp.get(pop.dst) == cpu.gp.get(push.a)
            &&& pop.dst != Reg::Sp ==> popped->Ok_0.cpu.gp.sp == cpu.gp.sp
        }),
{
    let sp = (cpu.gp.sp - 4) as BitSize;
    let pushed = cpu.step_spec(mmu, push, stop, cycles, steady, now)->Ok_0;
    lemma_fault_same_masks(
        mmu,
        mmu.with_mem(pushed.mem),
        stack_slot(sp).first_page(),
        stack_slot(sp).last_page(),
        read_write(),
    );
    lemma_top_of_pushed(mmu.mem, sp as int, cpu.gp.get(push.a));
}


/// Page protection as the processor sees it: a store to a page that
/// cannot be written fails with a page fault that names write access, and a
/// load from a page that can be read succeeds unless it runs past the last
/// address.
pub proof fn lemma_store_needs_write(mmu: MmuView, addr: BitSize, value: BitSize, width: nat)
    ensures
        !mmu.page_prot(addr as int / 4096).write ==> store_result(mmu, addr, value, width) == Err::<
            Seq<u8>,
            CpuError,
        >(CpuError::Mem(MemError::PageFault(Protection::of_spec(Prot::Write)))),
        mmu.page_prot(addr as int / 4096).read && addr + width - 1 <= BitSize::MAX ==> load_result(
            mmu,
            addr,
            width,
        ) is Ok,
{
}

} // verus!
