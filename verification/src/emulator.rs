use vstd::prelude::*;
use crate::cpu::{Cpu, CpuError, Effect, EffectView, Outcome, realizes, state_of};
use crate::instruction::{InstError, Instruction, InstructionType, decode};
use crate::mmu::address_range::AddressRange;
use crate::mmu::memory::{PAGE_COUNT, mem_size, overflows, overwrite};
use crate::mmu::{MemError, Mmu, MmuView, Prot, Protection};
use crate::registers::BitSize;

verus! {

/// Why the emulator stopped with an error.
#[derive(Copy, Clone, Debug, PartialEq, Eq, Structural)]
pub enum EmuError {
    /// A memory operation of the driver failed.
    Mem(MemError),
    /// The page of the program counter cannot be executed; holds the
    /// fault and the program counter.
    PageFault(MemError, BitSize),
    /// The bytes at the program counter are no instruction.
    Inst(InstError),
    /// The processor refused the instruction.
    Cpu(CpuError),
}

/// What one step of the emulator reports to its host.
#[derive(Debug)]
pub struct Step {
    /// Whether the instruction halted the machine.
    pub stop: bool,
    /// The cycles that the instruction cost.
    pub cycles: u32,
    /// What the instruction asks of the host.
    pub effect: Effect,
}

/// Why a run came to rest.
#[derive(Debug)]
pub enum Pause {
    /// The machine halted.
    Halted,
    /// An instruction asks something of the host; the run can go on when
    /// the host has done it.
    Host(Effect),
    /// The budget of instructions is used up.
    Budget,
}

/// A [`Pause`] with its text as a sequence of characters.
pub enum PauseView {
    Halted,
    Host(EffectView),
    Budget,
}

impl View for Pause {
    type V = PauseView;

    open spec fn view(&self) -> PauseView {
        match self {
            Pause::Halted => PauseView::Halted,
            Pause::Host(effect) => PauseView::Host(effect@),
            Pause::Budget => PauseView::Budget,
        }
    }
}

/// Where a run came to rest: why, and with what processor and store.
pub struct Rest {
    pub pause: Result<PauseView, EmuError>,
    pub cpu: Cpu,
    pub mem: Seq<u8>,
}

/// Where a run comes to rest that reads the clock as `times` says, one
/// reading for each step: at the first step that fails, halts or asks
/// something of the host, or else when the readings are used up.
pub open spec fn run_spec(cpu: Cpu, mmu: MmuView, steady: bool, times: Seq<u128>) -> Rest
    decreases times.len(),
{
    if times.len() == 0 {
        Rest { pause: Ok(PauseView::Budget), cpu, mem: mmu.mem }
    } else {
        match emu_step(cpu, mmu, steady, times[0]) {
            Err(e) => Rest { pause: Err(e), cpu, mem: mmu.mem },
            Ok(out) => if out.stop {
                Rest { pause: Ok(PauseView::Halted), cpu: out.cpu, mem: out.mem }
            } else if !(out.effect is Nothing) {
                Rest { pause: Ok(PauseView::Host(out.effect)), cpu: out.cpu, mem: out.mem }
            } else {
                run_spec(out.cpu, mmu.with_mem(out.mem), steady, times.drop_first())
            },
        }
    }
}

/// The emulator: a processor, its memory management unit, and whether the
/// clock is steady.
#[derive(Debug)]
pub struct Emulator {
    pub cpu: Cpu,
    pub mmu: Mmu,
    /// Whether every instruction is to take its cycles in real time.
    pub steady_clock: bool,
}

/// The time that one cycle takes when the clock is steady, in microseconds.
pub const FREQ_MICROS: u64 = 5;

/// The time that is left to wait after an instruction of `cycles` cycles
/// took `elapsed` microseconds, when the clock is steady: what is missing
/// up to `cycles` times the time of a cycle.
pub open spec fn pacing_spec(cycles: u32, elapsed: u64) -> u64 {
    if elapsed < FREQ_MICROS * cycles {
        (FREQ_MICROS * cycles - elapsed) as u64
    } else {
        0
    }
}

/// The microseconds that the host has to wait after an instruction of
/// `cycles` cycles that took `elapsed` microseconds.
pub fn pacing_wait(cycles: u32, elapsed: u64) -> (wait: u64)
    ensures
        wait == pacing_spec(cycles, elapsed),
{
    let target: u64 = FREQ_MICROS * (cycles as u64);
    if elapsed < target {
        target - elapsed
    } else {
        0
    }
}

/// The mask of a page that holds the program: read and execute.
pub open spec fn read_execute() -> Protection {
    Protection { read: true, write: false, execute: true }
}

/// The mask of a page that holds data: read and write.
pub open spec fn data_mask() -> Protection {
    Protection { read: true, write: true, execute: false }
}

/// The number of pages that a program of `len` bytes takes.
pub open spec fn program_pages(len: nat) -> int {
    (len as int + 4095) / 4096
}

/// The instruction that a fetch at the program counter gives. It fails
/// with an overflow where eight bytes from the program counter on run past
/// the last address, then with a page fault that holds the program counter
/// where its page cannot be executed, then where the bytes do not decode.
pub open spec fn fetch_spec(cpu: Cpu, mmu: MmuView) -> Result<Instruction, EmuError> {
    if overflows(cpu.pc, 8) {
        Err(EmuError::Mem(MemError::Overflow))
    } else {
        match mmu.fault_in(
            AddressRange { start: cpu.pc, end: cpu.pc },
            Protection::of_spec(Prot::Execute),
        ) {
            Some(lack) => Err(EmuError::PageFault(MemError::PageFault(lack), cpu.pc)),
            None => match decode(mmu.mem.subrange(cpu.pc as int, cpu.pc + 8)) {
                Err(e) => Err(EmuError::Inst(e)),
                Ok(inst) => Ok(inst),
            },
        }
    }
}

/// The cycle counter after `cycles` more cycles.
pub open spec fn clock_after(clk: u64, cycles: u32) -> u64 {
    ((clk + cycles) % 0x1_0000_0000_0000_0000) as u64
}

/// What one step does: fetch, then execute with the stop flag clear and
/// one cycle on the count; unless the instruction halts, its cycles are
/// added to the cycle counter.
pub open spec fn emu_step(cpu: Cpu, mmu: MmuView, steady: bool, now: u128) -> Result<
    Outcome,
    EmuError,
> {
    match fetch_spec(cpu, mmu) {
        Err(e) => Err(e),
        Ok(inst) => match cpu.step_spec(mmu, inst, false, 1, steady, now) {
            Err(e) => Err(EmuError::Cpu(e)),
            Ok(out) => Ok(
                Outcome {
                    cpu: if out.stop {
                        out.cpu
                    } else {
                        Cpu { clk: clock_after(out.cpu.clk, out.cycles), ..out.cpu }
                    },
                    ..out
                },
            ),
        },
    }
}

impl Emulator {
    /// The invariant of the emulator: that of its memory management unit.
    pub open spec fn wf(&self) -> bool {
        self.mmu.wf()
    }

    /// Whether the result `r` and the emulator behind `self` are what
    /// `expected` says of the emulator `before`.
    pub open spec fn follows(
        &self,
        before: &Emulator,
        expected: Result<Outcome, EmuError>,
        r: Result<Step, EmuError>,
    ) -> bool {
        match expected {
            Ok(out) => {
                &&& r is Ok
                &&& r->Ok_0.stop == out.stop
                &&& r->Ok_0.cycles == out.cycles
                &&& r->Ok_0.effect@ == out.effect
                &&& self.cpu == out.cpu
                &&& self.mmu.memory() == out.mem
            },
            Err(e) => {
                &&& r is Err
                &&& r->Err_0 == e
                &&& self.cpu == before.cpu
                &&& self.mmu.memory() == before.mmu.memory()
            },
        }
    }

    /// An emulator at power-on with `program` at address 0: the pages of
    /// the program can be read and executed, all others read and written.
    /// Fails with an overflow where the program is longer than the store.
    pub fn new(program: &[u8]) -> (r: Result<Emulator, EmuError>)
        ensures
            program@.len() > mem_size() ==> r == Err::<Emulator, EmuError>(
                EmuError::Mem(MemError::Overflow),
            ),
            program@.len() <= mem_size() ==> r is Ok && ({
                let emu = r->Ok_0;
                &&& emu.wf()
                &&& emu.cpu == Cpu::initial()
                &&& !emu.steady_clock
                &&& emu.mmu@.mem == overwrite(
                    Seq::new(mem_size() as nat, |a: int| 0u8),
                    0,
                    program@,
                )
                &&& emu.mmu@.prot == Seq::new(
                    PAGE_COUNT as nat,
                    |p: int|
                        if p < program_pages(program@.len()) {
                            read_execute()
                        } else {
                            data_mask()
                        },
                )
            }),
    {
        let mut emu = Emulator { cpu: Cpu::new(), mmu: Mmu::new(), steady_clock: false };
        emu.mmu.set_prot(AddressRange::full(), Protection::of(Prot::Read).with(Prot::Write));
        match emu.write_program(program) {
            Err(e) => Err(EmuError::Mem(e)),
            Ok(()) => {
                assert(emu.mmu@.prot =~= Seq::new(
                    PAGE_COUNT as nat,
                    |p: int|
                        if p < program_pages(program@.len()) {
                            read_execute()
                        } else {
                            data_mask()
                        },
                ));
                Ok(emu)
            },
        }
    }

    /// Writes `program` at address 0 and lets its pages be read and
    /// executed. The other pages keep their masks. Fails with an overflow,
    /// and changes nothing, where the program is longer than the store.
    pub fn write_program(&mut self, program: &[u8]) -> (r: Result<(), MemError>)
        requires
            old(self).wf(),
        ensures
            final(self).wf(),
            final(self).cpu == old(self).cpu,
            final(self).steady_clock == old(self).steady_clock,
            program@.len() > mem_size() ==> r == Err::<(), MemError>(MemError::Overflow)
                && final(self).mmu@ == old(self).mmu@,
            program@.len() <= mem_size() ==> r == Ok::<(), MemError>(()) && final(self).mmu@.mem
                == overwrite(old(self).mmu@.mem, 0, program@) && final(self).mmu@.prot == Seq::new(
                PAGE_COUNT as nat,
                |p: int|
                    if p < program_pages(program@.len()) {
                        read_execute()
                    } else {
                        old(self).mmu@.prot[p]
                    },
            ),
    {
        match self.mmu.memwrite(0, program) {
            Err(e) => {
                return Err(e);
            },
            Ok(()) => {},
        }
        let len = program.len();
        if len > 0 {
            let last: BitSize = (len - 1) as BitSize;
            self.mmu.set_prot(
                AddressRange::up_to_inclusive(last),
                Protection::of(Prot::Read).with(Prot::Execute),
            );
        }
        assert(self.mmu@.prot =~= Seq::new(
            PAGE_COUNT as nat,
            |p: int|
                if p < program_pages(program@.len()) {
                    read_execute()
                } else {
                    old(self).mmu@.prot[p]
                },
        ));
        Ok(())
    }

    /// Fetches and decodes the instruction at the program counter.
    pub fn next_inst(&self) -> (r: Result<Instruction, EmuError>)
        requires
            self.wf(),
        ensures
            r == fetch_spec(self.cpu, self.mmu@),
    {
        let mut buf: Vec<u8> = vec![0u8; 8];
        match self.mmu.memcpy(self.cpu.pc, &mut buf) {
            Err(e) => {
                return Err(EmuError::Mem(e));
            },
            Ok(()) => {},
        }
        match self.mmu.check_prot(AddressRange::single(self.cpu.pc), Protection::of(Prot::Execute)) {
            Err(e) => {
                return Err(EmuError::PageFault(e, self.cpu.pc));
            },
            Ok(()) => {},
        }
        match Instruction::from_buf(buf.as_slice()) {
            Err(e) => Err(EmuError::Inst(e)),
            Ok(inst) => Ok(inst),
        }
    }

    /// The exit value of a halted machine: the register that the halt at
    /// the program counter names as its operand `a`. Zero where no halt
    /// can be fetched there.
    pub open spec fn exit_spec(cpu: Cpu, mmu: MmuView) -> BitSize {
        match fetch_spec(cpu, mmu) {
            Ok(inst) => if inst.ty == InstructionType::Hlt {
                cpu.gp.get(inst.a)
            } else {
                0
            },
            Err(_) => 0,
        }
    }

    /// The exit value of a halted machine.
    pub fn exit_code(&self) -> (code: BitSize)
        requires
            self.wf(),
        ensures
            code == Emulator::exit_spec(self.cpu, self.mmu@),
    {
        match self.next_inst() {
            Ok(inst) => match inst.ty {
                InstructionType::Hlt => self.cpu.gp.get_reg(inst.a),
                _ => 0,
            },
            Err(_) => 0,
        }
    }

    /// Closes a step: passes the processor's error on, or adds the cycles
    /// to the cycle counter unless the machine has halted.
    fn settle(&mut self, done: Result<Effect, CpuError>, stop: bool, cycles: u32) -> (r: Result<
        Step,
        EmuError,
    >)
        ensures
            final(self).mmu == old(self).mmu,
            final(self).steady_clock == old(self).steady_clock,
            match done {
                Err(e) => r is Err && r->Err_0 == EmuError::Cpu(e) && final(self).cpu == old(self).cpu,
                Ok(effect) => r is Ok && r->Ok_0.stop == stop && r->Ok_0.cycles == cycles
                    && r->Ok_0.effect == effect && final(self).cpu == if stop {
                    old(self).cpu
                } else {
                    Cpu { clk: clock_after(old(self).cpu.clk, cycles), ..old(self).cpu }
                },
            },
    {
        match done {
            Err(e) => Err(EmuError::Cpu(e)),
            Ok(effect) => {
                if !stop {
                    self.cpu.clk = ((self.cpu.clk as u128 + cycles as u128)
                        % 0x1_0000_0000_0000_0000) as u64;
                }
                Ok(Step { stop, cycles, effect })
            },
        }
    }

    /// Runs one instruction at a given reading of the clock: `now`
    /// nanoseconds since the Unix epoch. The result and the emulator
    /// afterwards are what [`emu_step`] gives; a failed step changes
    /// neither the processor nor the store. The protection masks stay.
    #[verifier::rlimit(30)]
    pub fn step_at(&mut self, now: u128) -> (r: Result<Step, EmuError>)
        requires
            old(self).wf(),
        ensures
            final(self).wf(),
            final(self).steady_clock == old(self).steady_clock,
            final(self).mmu@.prot == old(self).mmu@.prot,
            final(self).follows(
                old(self),
                emu_step(old(self).cpu, old(self).mmu@, old(self).steady_clock, now),
                r,
            ),
    {
        let inst = match self.next_inst() {
            Err(e) => {
                return Err(e);
            },
            Ok(inst) => inst,
        };
        let mut stop = false;
        let mut cycles: u32 = 1;
        let steady = self.steady_clock;
        let done = self.cpu.process_at(inst, &mut self.mmu, &mut stop, &mut cycles, steady, now);
        self.settle(done, stop, cycles)
    }

    /// Runs one instruction, reading the clock where the instruction asks
    /// the time. What it does is what [`Emulator::step_at`] does at some
    /// reading of the clock.
    #[verifier::rlimit(30)]
    pub fn step(&mut self) -> (r: Result<Step, EmuError>)
        requires
            old(self).wf(),
        ensures
            final(self).wf(),
            final(self).steady_clock == old(self).steady_clock,
            final(self).mmu@.prot == old(self).mmu@.prot,
            exists|now: u128|
                final(self).follows(
                    old(self),
                    #[trigger] emu_step(old(self).cpu, old(self).mmu@, old(self).steady_clock, now),
                    r,
                ),
    {
        let inst = match self.next_inst() {
            Err(e) => {
                assert(final(self).follows(
                    old(self),
                    emu_step(old(self).cpu, old(self).mmu@, old(self).steady_clock, 0),
                    Err::<Step, EmuError>(e),
                ));
                return Err(e);
            },
            Ok(inst) => inst,
        };
        let mut stop = false;
        let mut cycles: u32 = 1;
        let steady = self.steady_clock;
        let done = self.cpu.process(inst, &mut self.mmu, &mut stop, &mut cycles, steady);
        let ghost now = choose|now: u128|
            realizes(
                #[trigger] old(self).cpu.step_spec(old(self).mmu@, inst, false, 1, steady, now),
                done,
                state_of(old(self).cpu, old(self).mmu@, false, 1),
                state_of(self.cpu, self.mmu@, stop, cycles),
            );
        let r = self.settle(done, stop, cycles);
        assert(final(self).follows(
            old(self),
            emu_step(old(self).cpu, old(self).mmu@, old(self).steady_clock, now),
            r,
        ));
        r
    }

    /// Whether the result `r` and the emulator behind `self` are what
    /// `expected` says.
    pub open spec fn rests(&self, expected: Rest, r: Result<Pause, EmuError>) -> bool {
        &&& self.cpu == expected.cpu
        &&& self.mmu.memory() == expected.mem
        &&& match expected.pause {
            Ok(pause) => r is Ok && r->Ok_0@ == pause,
            Err(e) => r is Err && r->Err_0 == e,
        }
    }

    /// Runs instructions until one fails, halts the machine or asks
    /// something of the host, and no more than `budget` of them. Where it
    /// comes to rest is what [`run_spec`] gives for some readings of the
    /// clock, one for each instruction that ran; where the budget is used
    /// up, there are `budget` of them.
    #[verifier::rlimit(30)]
    pub fn run(&mut self, budget: u64) -> (r: Result<Pause, EmuError>)
        requires
            old(self).wf(),
        ensures
            final(self).wf(),
            final(self).steady_clock == old(self).steady_clock,
            final(self).mmu@.prot == old(self).mmu@.prot,
            exists|times: Seq<u128>|
                ({
                    &&& times.len() <= budget
                    &&& final(self).rests(
                        #[trigger] run_spec(
                            old(self).cpu,
                            old(self).mmu@,
                            old(self).steady_clock,
                            times,
                        ),
                        r,
                    )
                    &&& (r is Ok && r->Ok_0 is Budget) ==> times.len() == budget
                }),
    {
        let ghost mut times: Seq<u128> = Seq::empty();
        let ghost steady = self.steady_clock;
        let mut left = budget;
        proof {
            assert forall|rest: Seq<u128>|
                #[trigger] run_spec(old(self).cpu, old(self).mmu@, steady, times + rest)
                    == run_spec(self.cpu, self.mmu@, steady, rest) by {
                assert(times + rest =~= rest);
            }
        }
        while left > 0
            invariant
                self.wf(),
                self.steady_clock == steady,
                steady == old(self).steady_clock,
                self.mmu@.prot == old(self).mmu@.prot,
                times.len() == budget - left,
                forall|rest: Seq<u128>|
                    #[trigger] run_spec(old(self).cpu, old(self).mmu@, steady, times + rest)
                        == run_spec(self.cpu, self.mmu@, steady, rest),
            decreases left,
        {
            let ghost cpu0 = self.cpu;
            let ghost mmu0 = self.mmu@;
            let ghost before = *self;
            let res = self.step();
            let ghost now = choose|now: u128|
                self.follows(&before, #[trigger] emu_step(cpu0, mmu0, steady, now), res);
            let ghost one = seq![now];
            proof {
                assert(one.drop_first() =~= Seq::<u128>::empty());
                assert(one[0] == now);
                assert(run_spec(old(self).cpu, old(self).mmu@, steady, times + one) == run_spec(
                    cpu0,
                    mmu0,
                    steady,
                    one,
                ));
            }
            match res {
                Err(e) => {
                    assert(self.mmu@ == mmu0);
                    assert(self.rests(
                        run_spec(old(self).cpu, old(self).mmu@, steady, times + one),
                        Err::<Pause, EmuError>(e),
                    ));
                    return Err(e);
                },
                Ok(step) => {
                    let ghost out = emu_step(cpu0, mmu0, steady, now)->Ok_0;
                    assert(self.mmu@ == mmu0.with_mem(out.mem));
                    if step.stop {
                        assert(self.rests(
                            run_spec(old(self).cpu, old(self).mmu@, steady, times + one),
                            Ok::<Pause, EmuError>(Pause::Halted),
                        ));
                        return Ok(Pause::Halted);
                    }
                    match step.effect {
                        Effect::Nothing => {},
                        effect => {
                            let r = Ok::<Pause, EmuError>(Pause::Host(effect));
                            assert(self.rests(
                                run_spec(old(self).cpu, old(self).mmu@, steady, times + one),
                                r,
                            ));
                            return r;
                        },
                    }
                    proof {
                        assert forall|rest: Seq<u128>|
                            #[trigger] run_spec(
                                old(self).cpu,
                                old(self).mmu@,
                                steady,
                                (times + one) + rest,
                            ) == run_spec(self.cpu, self.mmu@, steady, rest) by {
                            let tail = one + rest;
                            assert((times + one) + rest =~= times + tail);
                            assert(tail.drop_first() =~= rest);
                            assert(tail[0] == now);
                            assert(run_spec(old(self).cpu, old(self).mmu@, steady, times + tail)
                                == run_spec(cpu0, mmu0, steady, tail));
                        }
                        times = times + one;
                    }
                    left -= 1;
                },
            }
        }
        proof {
            assert(times + Seq::<u128>::empty() =~= times);
            assert(run_spec(old(self).cpu, old(self).mmu@, steady, times + Seq::<u128>::empty())
                == run_spec(self.cpu, self.mmu@, steady, Seq::<u128>::empty()));
        }
        Ok(Pause::Budget)
    }
}

/// A step at a program counter whose page cannot be executed fails with a
/// page fault that names execute access and holds the program counter.
pub proof fn lemma_execute_fault(cpu: Cpu, mmu: MmuView, steady: bool, now: u128)
    requires
        !overflows(cpu.pc, 8),
        !mmu.page_prot(cpu.pc as int / 4096).execute,
    ensures
        emu_step(cpu, mmu, steady, now) == Err::<Outcome, EmuError>(
            EmuError::PageFault(
                MemError::PageFault(Protection::of_spec(Prot::Execute)),
                cpu.pc,
            ),
        ),
{
}

} // verus!
