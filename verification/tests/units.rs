use aspen::cpu::{
    alu, cpu_error, cycles_of_sleep, print_effect, signed_lt, takes_jump, Cpu, CpuError, Effect,
};
use aspen::emulator::{pacing_wait, EmuError, Emulator, Pause};
use aspen::instruction::{mask_reg, word_from_le, word_to_le, InstError, Instruction, InstructionType};
use aspen::mmu::address_range::AddressRange;
use aspen::mmu::memory::{FromBytes, Memory, ToBytes};
use aspen::mmu::{MemError, Mmu, Prot, Protection};
use aspen::monitor::{Monitor, MonitorArgs};
use aspen::registers::{Reg, Registers};
use aspen::trace::{operands, trace_line, RegOpts};

fn plain(ty: InstructionType, dst: Reg, a: Reg, b: Reg) -> Instruction {
    Instruction {
        ty,
        dst,
        a,
        b,
        c: Reg::Zr,
        d: Reg::Zr,
        e: Reg::Zr,
        f: Reg::Zr,
        has_imm: false,
        imm: 0,
    }
}

fn with_imm(ty: InstructionType, dst: Reg, a: Reg, b: Reg, imm: u32) -> Instruction {
    let le = imm.to_le_bytes();
    Instruction {
        ty,
        dst,
        a,
        b,
        c: Reg::from(le[0]),
        d: Reg::from(le[1]),
        e: Reg::from(le[2]),
        f: Reg::from(le[3]),
        has_imm: true,
        imm,
    }
}

#[test]
fn register_zero_ignores_writes() {
    let mut regs = Registers::default();
    regs.set_reg(Reg::Zr, 42);
    regs.set_reg(Reg::Zr, 0xFFFF_FFFF);
    assert_eq!(regs.get_reg(Reg::Zr), 0);
    assert_eq!(regs.zr, 0);
    assert_eq!(regs, Registers::default());
}

#[test]
fn registers_start_at_zero_but_the_stack_pointer() {
    let regs = Registers::default();
    assert_eq!(regs.sp, 0xFFFF_FFFF);
    assert_eq!(regs.get_reg(Reg::Sp), 0xFFFF_FFFF);
    assert_eq!(regs.ra, 0);
    assert_eq!(regs.a7, 0);
    let mut cpu = Cpu::new();
    cpu.pc = 9;
    cpu.clk = 3;
    cpu.gfx = 1;
    cpu.gp.set_reg(Reg::T0, 7);
    cpu.zeroize();
    assert_eq!(cpu, Cpu::new());
    assert_eq!(cpu.gp.sp, 0xFFFF_FFFF);
    assert_eq!(cpu.pc, 0);
}

#[test]
fn register_write_sweep() {
    let mut regs = Registers::default();
    for i in 1..=31u8 {
        regs.set_reg(Reg::from(i), i as u32);
    }
    assert_eq!(regs.get_reg(Reg::Zr), 0);
    for i in 1..=31u8 {
        assert_eq!(regs.get_reg(Reg::from(i)), i as u32);
        assert_eq!(Reg::from(i).index(), i);
    }
    assert_eq!(regs.t0, 5);
    assert_eq!(regs.s0, 12);
    assert_eq!(regs.a0, 24);
}

#[test]
fn register_names_and_indices() {
    assert_eq!(Reg::from(0u8), Reg::Zr);
    assert_eq!(Reg::from(2u8), Reg::Sp);
    assert_eq!(Reg::from(11u8), Reg::T6);
    assert_eq!(Reg::from(0x2Cu8), Reg::S0);
    assert_eq!(Reg::from(0xFFu8), Reg::A7);
    assert_eq!(Reg::from(0x1234_5625u32), Reg::T0);
    assert_eq!(mask_reg(0xE1), Reg::Ra);
    assert_eq!(Reg::S10.name(), "s10");
    assert_eq!(Reg::Zr.name(), "zr");
    assert_eq!(Reg::A7.index(), 31);
}

#[test]
fn decode_reads_the_fields() {
    // mode 1, immediate, dst t0; opcode mov; a, b with high bits set
    let bytes = [0b01_1_00101, 0x0f, 0xE6, 0x27, 0x78, 0x56, 0x34, 0x12];
    let inst = Instruction::from_buf(&bytes).unwrap();
    assert_eq!(inst.ty, InstructionType::Mov);
    assert_eq!(inst.dst, Reg::T0);
    assert_eq!(inst.a, Reg::T1);
    assert_eq!(inst.b, Reg::T2);
    assert!(inst.has_imm);
    assert_eq!(inst.imm, 0x12345678);
    assert_eq!(inst.c, Reg::from(0x78u8));
    assert_eq!(inst.d, Reg::from(0x56u8));
    assert_eq!(inst.e, Reg::from(0x34u8));
    assert_eq!(inst.f, Reg::from(0x12u8));
    assert_eq!(inst.len(), 8);

    let inst = Instruction::from_buf(&[0b11_0_00110, 0x01, 0, 0, 0xAA, 0xBB, 0xCC, 0xDD]).unwrap();
    assert_eq!(inst, plain(InstructionType::Pop, Reg::T1, Reg::Zr, Reg::Zr));
    assert_eq!(inst.len(), 4);
    assert_eq!(inst.imm, 0);
}

#[test]
fn decode_rejects_short_and_unknown() {
    assert_eq!(Instruction::from_buf(&[]), Err(InstError::WrongSize(0)));
    assert_eq!(Instruction::from_buf(&[0, 0, 0]), Err(InstError::WrongSize(3)));
    assert_eq!(Instruction::from_buf(&[0x20, 0x07, 0, 0, 1, 2, 3]), Err(InstError::WrongSize(7)));
    assert_eq!(Instruction::from_buf(&[0x20, 0xFF, 0, 0, 1]), Err(InstError::WrongSize(5)));
    assert_eq!(
        Instruction::from_buf(&[0x00, 0x0b, 0, 0]),
        Err(InstError::UnknownInstruction(0, 0x0b))
    );
    assert_eq!(
        Instruction::from_buf(&[0xC0, 0x04, 0, 0]),
        Err(InstError::UnknownInstruction(3, 0x04))
    );
    assert_eq!(
        Instruction::from_buf(&[0x80, 0x0b, 0, 0, 0, 0, 0, 0]),
        Err(InstError::UnknownInstruction(2, 0x0b))
    );
    assert!(Instruction::from_buf(&[0x00, 0x2b, 0, 0]).is_ok());
}

#[test]
fn every_pair_decodes_to_its_own_kind() {
    let mut known = 0;
    for mode in 0..4u8 {
        for opcode in 0..=255u8 {
            match InstructionType::try_from(mode, opcode) {
                Some(ty) => {
                    known += 1;
                    assert_eq!(ty.mode(), mode);
                    assert_eq!(ty.opcode(), opcode);
                }
                None => assert_eq!(
                    Instruction::from_buf(&[mode << 6, opcode, 0, 0]),
                    Err(InstError::UnknownInstruction(mode, opcode))
                ),
            }
        }
    }
    assert_eq!(known, 11 + 12 + 25 + 11 + 4);
    assert_eq!(InstructionType::try_from(4, 0), None);
}

#[test]
fn encode_then_decode_gives_the_record_back() {
    let kinds = [
        InstructionType::Nop,
        InstructionType::Tme,
        InstructionType::Ldw,
        InstructionType::Pstrb,
        InstructionType::Asr,
        InstructionType::Ja,
        InstructionType::Ret,
    ];
    for ty in kinds {
        for imm in [0u32, 1, 0x12345678, 0xFFFF_FFFF] {
            let inst = with_imm(ty, Reg::A7, Reg::S3, Reg::T1, imm);
            let bytes = inst.encode();
            assert_eq!(bytes.len(), 8);
            assert_eq!(Instruction::from_buf(&bytes), Ok(inst));
        }
        let inst = plain(ty, Reg::Sp, Reg::Zr, Reg::A0);
        let bytes = inst.encode();
        assert_eq!(bytes.len(), 4);
        assert_eq!(Instruction::from_buf(&bytes), Ok(inst));
    }
    let mov = with_imm(InstructionType::Mov, Reg::T0, Reg::Zr, Reg::Zr, 0x12345678);
    assert_eq!(mov.encode(), vec![0x65, 0x0f, 0x00, 0x00, 0x78, 0x56, 0x34, 0x12]);
    let push = plain(InstructionType::Push, Reg::Zr, Reg::T0, Reg::Zr);
    assert_eq!(push.encode(), vec![0xC0, 0x00, 0x05, 0x00]);
}

#[test]
fn little_endian_words() {
    assert_eq!(word_from_le(0x78, 0x56, 0x34, 0x12), 0x12345678);
    assert_eq!(word_to_le(0x12345678), [0x78, 0x56, 0x34, 0x12]);
    assert_eq!(0xBEEFu16.to_le_bytes(), [0xEF, 0xBE]);
    assert_eq!(ToBytes::to_le_bytes(0xBEEFu16), vec![0xEF, 0xBE]);
    assert_eq!(ToBytes::to_le_bytes(0x7Fu8), vec![0x7F]);
    assert_eq!(ToBytes::to_le_bytes(0xA1B2C3D4u32), vec![0xD4, 0xC3, 0xB2, 0xA1]);
    assert_eq!(<u16 as FromBytes>::from_le_bytes(&vec![0x34, 0x12]), 0x1234);
    assert_eq!(<u32 as FromBytes>::from_le_bytes(&vec![1, 2, 3, 4]), 0x04030201);
    assert_eq!(<u8 as FromBytes>::from_le_bytes(&vec![9]), 9);
    assert_eq!(
        ToBytes::to_le_bytes(0x0102_0304_0506_0708u64),
        vec![0x08, 0x07, 0x06, 0x05, 0x04, 0x03, 0x02, 0x01]
    );
    assert_eq!(
        <u64 as FromBytes>::from_le_bytes(&vec![0x08, 0x07, 0x06, 0x05, 0x04, 0x03, 0x02, 0x01]),
        0x0102_0304_0506_0708
    );
    assert_eq!(<u64 as FromBytes>::size(), 8);
    assert_eq!(<u32 as FromBytes>::size(), 4);
    assert_eq!(<u16 as FromBytes>::size(), 2);
    assert_eq!(<u8 as FromBytes>::size(), 1);
}

#[test]
fn address_ranges() {
    assert_eq!(AddressRange::from(7), AddressRange { start: 7, end: 7 });
    assert_eq!(AddressRange::single(7), AddressRange { start: 7, end: 7 });
    assert_eq!(AddressRange::from(3..10), AddressRange { start: 3, end: 9 });
    assert_eq!(AddressRange::from(3..0), AddressRange { start: 3, end: 0 });
    assert_eq!(AddressRange::exclusive(0, 0), AddressRange { start: 0, end: 0 });
    assert_eq!(AddressRange::inclusive(3, 10), AddressRange { start: 3, end: 10 });
    assert_eq!(AddressRange::up_to(10), AddressRange { start: 0, end: 9 });
    assert_eq!(AddressRange::up_to(0), AddressRange { start: 0, end: 0 });
    assert_eq!(AddressRange::up_to_inclusive(10), AddressRange { start: 0, end: 10 });
    assert_eq!(AddressRange::starting_at(5), AddressRange { start: 5, end: u32::MAX });
    assert_eq!(AddressRange::full(), AddressRange { start: 0, end: u32::MAX });
}

#[test]
fn protection_masks() {
    let r = Protection::of(Prot::Read);
    let w = Protection::of(Prot::Write);
    let x = Protection::of(Prot::Execute);
    let rw = r.union(w);
    assert_eq!(rw, r.with(Prot::Write));
    assert!(rw.contains(r));
    assert!(rw.contains(w));
    assert!(!rw.contains(x));
    assert!(rw.contains(Protection::empty()));
    assert!(Protection::empty().is_empty());
    assert!(!r.is_empty());
    assert_eq!(rw.missing(Protection::all()), x);
    assert_eq!(r.missing(rw), w);
    assert_eq!(Protection::all().missing(rw), Protection::empty());
    assert_eq!(r.bits(), 1);
    assert_eq!(w.bits(), 2);
    assert_eq!(x.bits(), 4);
    assert_eq!(Protection::all().bits(), 7);
    assert_eq!(Protection::empty().bits(), 0);
}

#[test]
fn memory_reads_and_writes() {
    let mut mem = Memory::new();
    assert_eq!(mem.load(0), 0);
    assert_eq!(mem.load(u32::MAX), 0);
    mem.store(0x1234, 0xAB);
    assert_eq!(mem.load(0x1234), 0xAB);
    assert_eq!(mem.load(0x1235), 0);
    assert_eq!(mem.write(0xFFFF_FFFC, 0xAABBCCDDu32), Ok(()));
    assert_eq!(mem.read::<u32>(0xFFFF_FFFC), Ok(0xAABBCCDD));
    assert_eq!(mem.read::<u16>(0xFFFF_FFFE), Ok(0xAABB));
    assert_eq!(mem.read::<u8>(0xFFFF_FFFF), Ok(0xAA));
    assert_eq!(mem.read::<u32>(0xFFFF_FFFD), Err(MemError::Overflow));
    assert_eq!(mem.read::<u64>(0xFFFF_FFF9), Err(MemError::Overflow));
    assert_eq!(mem.read::<u64>(0xFFFF_FFF8), Ok(0xAABB_CCDD_0000_0000));
    assert_eq!(mem.read::<u16>(0xFFFF_FFFF), Err(MemError::Overflow));
    assert_eq!(mem.write(0xFFFF_FFFD, 1u32), Err(MemError::Overflow));
    assert_eq!(mem.write(0xFFFF_FFFF, 1u16), Err(MemError::Overflow));
    assert_eq!(mem.read::<u32>(0xFFFF_FFFC), Ok(0xAABBCCDD));
    // a word across a page boundary
    assert_eq!(mem.write(0x0FFE, 0x11223344u32), Ok(()));
    assert_eq!(mem.read::<u32>(0x0FFE), Ok(0x11223344));
    assert_eq!(mem.load(0x0FFF), 0x33);
    assert_eq!(mem.load(0x1000), 0x22);

    let mut buf = vec![0u8; 4];
    assert_eq!(mem.memcpy(0x0FFE, &mut buf), Ok(()));
    assert_eq!(buf, vec![0x44, 0x33, 0x22, 0x11]);
    assert_eq!(mem.memcpy(0xFFFF_FFFD, &mut buf), Err(MemError::Overflow));
    assert_eq!(buf, vec![0x44, 0x33, 0x22, 0x11]);
    let mut none: Vec<u8> = Vec::new();
    assert_eq!(mem.memcpy(0xFFFF_FFFF, &mut none), Ok(()));
    assert_eq!(mem.memwrite(0xFFFF_FFFF, &[]), Ok(()));
    assert_eq!(mem.memwrite(0xFFFF_FFFF, &[1, 2]), Err(MemError::Overflow));
    assert_eq!(mem.load(0xFFFF_FFFF), 0xAA);
    assert_eq!(mem.memwrite(0xFFFF_FFFE, &[1, 2]), Ok(()));
    assert_eq!(mem.load(0xFFFF_FFFF), 2);

    mem.zeroize();
    assert_eq!(mem.load(0x1234), 0);
    assert_eq!(mem.read::<u32>(0xFFFF_FFFC), Ok(0));
}

#[test]
fn mmu_guards_pages() {
    let mut mmu = Mmu::new();
    let r = Protection::of(Prot::Read);
    let w = Protection::of(Prot::Write);
    let x = Protection::of(Prot::Execute);
    assert_eq!(mmu.prot(0), Protection::empty());
    assert_eq!(mmu.read::<u32>(0), Err(MemError::PageFault(r)));
    assert_eq!(mmu.write(0, 1u32), Err(MemError::PageFault(w)));
    assert_eq!(mmu.read_unchecked::<u32>(0), Ok(0));

    // every page that holds a byte of the range, whatever the offsets
    mmu.set_prot(AddressRange::inclusive(4095, 4096), r.union(w));
    assert_eq!(mmu.prot(0), r.union(w));
    assert_eq!(mmu.prot(4095), r.union(w));
    assert_eq!(mmu.prot(4096), r.union(w));
    assert_eq!(mmu.prot(8191), r.union(w));
    assert_eq!(mmu.prot(8192), Protection::empty());
    assert_eq!(mmu.write(4094, 0xA1B2C3D4u32), Ok(()));
    assert_eq!(mmu.read::<u32>(4094), Ok(0xA1B2C3D4));
    assert_eq!(mmu.read::<u8>(8191), Ok(0));

    // a range that holds no address changes nothing
    mmu.set_prot(AddressRange { start: 9000, end: 8000 }, Protection::all());
    assert_eq!(mmu.prot(8192), Protection::empty());
    assert_eq!(mmu.check_prot(AddressRange { start: 9000, end: 8000 }, Protection::all()), Ok(()));

    mmu.set_prot(AddressRange::single(8192), r);
    assert_eq!(mmu.check_prot(AddressRange::inclusive(0, 8192), r), Ok(()));
    assert_eq!(
        mmu.check_prot(AddressRange::inclusive(0, 8192), r.union(w)),
        Err(MemError::PageFault(w))
    );
    assert_eq!(
        mmu.check_prot(AddressRange::inclusive(0, 3 * 4096), Protection::all()),
        Err(MemError::PageFault(x))
    );
    assert_eq!(
        mmu.check_prot(AddressRange::inclusive(8192, 3 * 4096), Protection::all()),
        Err(MemError::PageFault(w.union(x)))
    );
    assert_eq!(mmu.write(8192, 1u8), Err(MemError::PageFault(w)));
    assert_eq!(mmu.write_unchecked(8192, 0x55u8), Ok(()));
    assert_eq!(mmu.read::<u8>(8192), Ok(0x55));

    mmu.set_prot(AddressRange::starting_at(0xFFFF_F000), r.union(w));
    assert_eq!(mmu.read::<u32>(0xFFFF_FFFD), Err(MemError::Overflow));
    assert_eq!(mmu.write(0xFFFF_FFFF, 1u16), Err(MemError::Overflow));
    assert_eq!(mmu.write(0xFFFF_FFFF, 1u8), Ok(()));

    let mut buf = vec![0u8; 2];
    assert_eq!(mmu.memcpy(4095, &mut buf), Ok(()));
    assert_eq!(buf, vec![0xC3, 0xB2]);
    assert_eq!(mmu.memwrite(0x10_0000, &[1, 2, 3]), Ok(()));
    assert_eq!(mmu.read_unchecked::<u16>(0x10_0001), Ok(0x0302));
    mmu.zeroize();
    assert_eq!(mmu.read_unchecked::<u16>(0x10_0001), Ok(0));
    assert_eq!(mmu.prot(4096), r.union(w));
    mmu.set_prot(AddressRange::full(), x);
    assert_eq!(mmu.prot(0), x);
    assert_eq!(mmu.prot(u32::MAX), x);
}

#[test]
fn emulator_lays_out_the_program() {
    let program = vec![0xEEu8; 4097];
    let emu = Emulator::new(&program).unwrap();
    let rx = Protection::of(Prot::Read).with(Prot::Execute);
    let rw = Protection::of(Prot::Read).with(Prot::Write);
    assert_eq!(emu.mmu.prot(0), rx);
    assert_eq!(emu.mmu.prot(4096), rx);
    assert_eq!(emu.mmu.prot(8192), rw);
    assert_eq!(emu.mmu.prot(u32::MAX), rw);
    assert_eq!(emu.mmu.read::<u8>(4096), Ok(0xEE));
    assert_eq!(emu.mmu.read::<u8>(4097), Ok(0));
    assert_eq!(emu.cpu, Cpu::new());
    assert!(!emu.steady_clock);

    let empty = Emulator::new(&[]).unwrap();
    assert_eq!(empty.mmu.prot(0), rw);

    let mut emu = Emulator::new(&[0u8; 4096]).unwrap();
    assert_eq!(emu.mmu.prot(4095), rx);
    assert_eq!(emu.mmu.prot(4096), rw);
    emu.write_program(&[1, 2, 3]).unwrap();
    assert_eq!(emu.mmu.prot(0), rx);
    assert_eq!(emu.mmu.read::<u16>(1), Ok(0x0302));
}

#[test]
fn execute_needs_an_executable_page() {
    let mut emu = Emulator::new(&[0, 0, 0, 0]).unwrap();
    emu.mmu.set_prot(AddressRange::from(0..100), Protection::of(Prot::Read).with(Prot::Write));
    let x = Protection::of(Prot::Execute);
    assert_eq!(emu.step().map(|_| ()), Err(EmuError::PageFault(MemError::PageFault(x), 0)));
    assert_eq!(emu.cpu, Cpu::new());
    emu.cpu.pc = 0x2000;
    assert_eq!(emu.next_inst(), Err(EmuError::PageFault(MemError::PageFault(x), 0x2000)));
    emu.cpu.pc = 0xFFFF_FFF9;
    assert_eq!(emu.next_inst(), Err(EmuError::Mem(MemError::Overflow)));
    emu.mmu.set_prot(AddressRange::full(), Protection::all());
    emu.cpu.pc = 0x2000;
    emu.mmu.memwrite(0x2000, &[0x00, 0x0b, 0, 0]).unwrap();
    assert_eq!(
        emu.step().map(|_| ()),
        Err(EmuError::Inst(InstError::UnknownInstruction(0, 0x0b)))
    );
    emu.mmu.memwrite(0x2000, &[0x00, 0x06, 0, 0]).unwrap();
    let kbrd = plain(InstructionType::Kbrd, Reg::Zr, Reg::Zr, Reg::Zr);
    assert_eq!(emu.step().map(|_| ()), Err(EmuError::Cpu(CpuError::UnsupportedInst(kbrd))));
    assert_eq!(emu.cpu.pc, 0x2000);
    assert_eq!(emu.cpu.clk, 0);
}

#[test]
fn arithmetic_and_logic() {
    assert_eq!(alu(InstructionType::Nand, 0xF0F0_F0F0, 0xFF00_FF00), Ok(0x0FFF_0FFF));
    assert_eq!(alu(InstructionType::Or, 0xF0, 0x0F), Ok(0xFF));
    assert_eq!(alu(InstructionType::And, 0xF0, 0x3C), Ok(0x30));
    assert_eq!(alu(InstructionType::Nor, 0xF0, 0x0F), Ok(0xFFFF_FF00));
    assert_eq!(alu(InstructionType::Xor, 0xFF, 0x0F), Ok(0xF0));
    assert_eq!(alu(InstructionType::Add, 0xFFFF_FFFF, 2), Ok(1));
    assert_eq!(alu(InstructionType::Add, 7, 8), Ok(15));
    assert_eq!(alu(InstructionType::Sub, 1, 2), Ok(0xFFFF_FFFF));
    assert_eq!(alu(InstructionType::Sub, 9, 2), Ok(7));
    assert_eq!(alu(InstructionType::Lsl, 1, 31), Ok(0x8000_0000));
    assert_eq!(alu(InstructionType::Lsl, 3, 33), Ok(6));
    assert_eq!(alu(InstructionType::Lsr, 0x8000_0000, 31), Ok(1));
    assert_eq!(alu(InstructionType::Lsr, 0x8000_0000, 32), Ok(0x8000_0000));
    assert_eq!(alu(InstructionType::Asr, 0x8000_0000, 31), Ok(0xFFFF_FFFF));
    assert_eq!(alu(InstructionType::Asr, 0xFFFF_FFF0, 2), Ok(0xFFFF_FFFC));
    assert_eq!(alu(InstructionType::Asr, 0x7FFF_FFF0, 4), Ok(0x07FF_FFFF));
    assert_eq!(alu(InstructionType::Mul, 0x1_0000, 0x1_0000), Ok(0));
    assert_eq!(alu(InstructionType::Mul, 0xFFFF_FFFF, 0xFFFF_FFFF), Ok(1));
    assert_eq!(alu(InstructionType::Mul, 6, 7), Ok(42));
    assert_eq!(alu(InstructionType::Imul, (-3i32) as u32, 5), Ok((-15i32) as u32));
    assert_eq!(alu(InstructionType::Imul, (-3i32) as u32, (-5i32) as u32), Ok(15));
    assert_eq!(alu(InstructionType::Imul, 0x8000_0000, 0xFFFF_FFFF), Ok(0x8000_0000));
    assert_eq!(alu(InstructionType::Div, 17, 5), Ok(3));
    assert_eq!(alu(InstructionType::Div, 0xFFFF_FFFF, 2), Ok(0x7FFF_FFFF));
    assert_eq!(alu(InstructionType::Idiv, (-17i32) as u32, 5), Ok((-3i32) as u32));
    assert_eq!(alu(InstructionType::Idiv, 17, (-5i32) as u32), Ok((-3i32) as u32));
    assert_eq!(alu(InstructionType::Idiv, (-17i32) as u32, (-5i32) as u32), Ok(3));
    assert_eq!(alu(InstructionType::Idiv, 0x8000_0000, 0xFFFF_FFFF), Ok(0x8000_0000));
    assert_eq!(alu(InstructionType::Rem, 17, 5), Ok(2));
    assert_eq!(alu(InstructionType::Irem, (-17i32) as u32, 5), Ok((-2i32) as u32));
    assert_eq!(alu(InstructionType::Irem, 17, (-5i32) as u32), Ok(2));
    assert_eq!(alu(InstructionType::Irem, 0x8000_0000, 0xFFFF_FFFF), Ok(0));
    assert_eq!(alu(InstructionType::Inc, 0xFFFF_FFFF, 9), Ok(0));
    assert_eq!(alu(InstructionType::Inc, 4, 9), Ok(5));
    assert_eq!(alu(InstructionType::Dec, 0, 9), Ok(0xFFFF_FFFF));
    assert_eq!(alu(InstructionType::Dec, 4, 9), Ok(3));
    assert_eq!(alu(InstructionType::Mov, 4, 9), Ok(9));
    assert_eq!(alu(InstructionType::Se, 4, 4), Ok(1));
    assert_eq!(alu(InstructionType::Se, 4, 5), Ok(0));
    assert_eq!(alu(InstructionType::Sne, 4, 5), Ok(1));
    assert_eq!(alu(InstructionType::Sl, 0xFFFF_FFFF, 1), Ok(1));
    assert_eq!(alu(InstructionType::Sl, 1, 0xFFFF_FFFF), Ok(0));
    assert_eq!(alu(InstructionType::Sle, 1, 1), Ok(1));
    assert_eq!(alu(InstructionType::Sle, 2, 1), Ok(0));
    assert_eq!(alu(InstructionType::Sg, 1, 0xFFFF_FFFF), Ok(1));
    assert_eq!(alu(InstructionType::Sg, 1, 1), Ok(0));
    assert_eq!(alu(InstructionType::Sge, 1, 1), Ok(1));
    assert_eq!(alu(InstructionType::Sge, 0x8000_0000, 0), Ok(0));
    assert!(signed_lt(0x8000_0000, 0x7FFF_FFFF));
    assert!(!signed_lt(5, 5));
}

#[test]
fn division_by_zero() {
    for ty in [InstructionType::Div, InstructionType::Idiv, InstructionType::Rem, InstructionType::Irem] {
        for b in [0u32, 1, 7, 0xFFFF_FFFF] {
            assert_eq!(alu(ty, 0, b), Ok(0));
        }
        assert_eq!(alu(ty, 1, 0), Err(CpuError::DivByZero));
        assert_eq!(alu(ty, 0xFFFF_FFFF, 0), Err(CpuError::DivByZero));
    }
    let mut emu = Emulator::new(&[]).unwrap();
    let mut cpu = Cpu::new();
    cpu.gp.set_reg(Reg::T1, 9);
    let mut stop = false;
    let mut clk = 1;
    let div = plain(InstructionType::Div, Reg::T0, Reg::T1, Reg::T2);
    assert_eq!(
        cpu.process(div, &mut emu.mmu, &mut stop, &mut clk, false).map(|_| ()),
        Err(CpuError::DivByZero)
    );
    assert_eq!(cpu.pc, 0);
    cpu.gp.set_reg(Reg::T0, 77);
    let div = with_imm(InstructionType::Idiv, Reg::T0, Reg::T2, Reg::T1, 0);
    cpu.process(div, &mut emu.mmu, &mut stop, &mut clk, false).unwrap();
    assert_eq!(cpu.gp.t0, 0);
    assert_eq!(cpu.pc, 8);
}

#[test]
fn jumps() {
    let a = 0xFFFF_FFFF;
    let b = 1;
    assert!(takes_jump(InstructionType::Jmp, a, b));
    assert!(!takes_jump(InstructionType::Je, a, b));
    assert!(takes_jump(InstructionType::Je, b, b));
    assert!(takes_jump(InstructionType::Jne, a, b));
    assert!(takes_jump(InstructionType::Jl, a, b));
    assert!(!takes_jump(InstructionType::Jge, a, b));
    assert!(takes_jump(InstructionType::Jle, a, b));
    assert!(takes_jump(InstructionType::Jle, b, b));
    assert!(!takes_jump(InstructionType::Jg, a, b));
    assert!(takes_jump(InstructionType::Jg, b, a));
    assert!(!takes_jump(InstructionType::Jb, a, b));
    assert!(takes_jump(InstructionType::Jae, a, b));
    assert!(!takes_jump(InstructionType::Jbe, a, b));
    assert!(takes_jump(InstructionType::Jbe, b, b));
    assert!(takes_jump(InstructionType::Ja, a, b));
    assert!(!takes_jump(InstructionType::Nop, a, b));
}

#[test]
fn program_counter_advances() {
    let mut emu = Emulator::new(&[]).unwrap();
    let mut cpu = Cpu::new();
    let mut stop = false;
    let mut clk = 1;
    let nop = plain(InstructionType::Nop, Reg::Zr, Reg::Zr, Reg::Zr);
    cpu.process(nop, &mut emu.mmu, &mut stop, &mut clk, false).unwrap();
    assert_eq!(cpu.pc, 4);
    let add = with_imm(InstructionType::Add, Reg::T0, Reg::T0, Reg::Zr, 3);
    cpu.process(add, &mut emu.mmu, &mut stop, &mut clk, false).unwrap();
    assert_eq!(cpu.pc, 12);
    assert_eq!(cpu.gp.t0, 3);
    let rdpc = plain(InstructionType::Rdpc, Reg::T1, Reg::Zr, Reg::Zr);
    cpu.process(rdpc, &mut emu.mmu, &mut stop, &mut clk, false).unwrap();
    assert_eq!(cpu.gp.t1, 12);
    assert_eq!(cpu.pc, 16);
    let setgfx = with_imm(InstructionType::Setgfx, Reg::Zr, Reg::Zr, Reg::Zr, 0xB8000);
    cpu.process(setgfx, &mut emu.mmu, &mut stop, &mut clk, false).unwrap();
    assert_eq!(cpu.gfx, 0xB8000);
    assert_eq!(cpu.pc, 24);
    let jne = plain(InstructionType::Jne, Reg::T1, Reg::T0, Reg::Zr);
    cpu.process(jne, &mut emu.mmu, &mut stop, &mut clk, false).unwrap();
    assert_eq!(cpu.pc, 12);
    let je = with_imm(InstructionType::Je, Reg::Zr, Reg::T0, Reg::Zr, 0x100);
    cpu.process(je, &mut emu.mmu, &mut stop, &mut clk, false).unwrap();
    assert_eq!(cpu.pc, 20);
    assert_eq!(clk, 1);
    assert!(!stop);
    let hlt = plain(InstructionType::Hlt, Reg::Zr, Reg::Zr, Reg::Zr);
    cpu.process(hlt, &mut emu.mmu, &mut stop, &mut clk, false).unwrap();
    assert!(stop);
    assert_eq!(cpu.pc, 20);
    cpu.pc = 0xFFFF_FFFC;
    cpu.process(nop, &mut emu.mmu, &mut stop, &mut clk, false).unwrap();
    assert_eq!(cpu.pc, 0);
}

#[test]
fn time_fills_four_registers() {
    let mut emu = Emulator::new(&[]).unwrap();
    let mut cpu = Cpu::new();
    let mut stop = false;
    let mut clk = 1;
    let imm = u32::from_le_bytes([Reg::T2.index(), Reg::T3.index(), 0, 0]);
    let tme = with_imm(InstructionType::Tme, Reg::Zr, Reg::T0, Reg::T1, imm);
    let now: u128 = 0x0123_4567_89AB_CDEF_1122_3344_5566_7788;
    cpu.process_at(tme, &mut emu.mmu, &mut stop, &mut clk, false, now).unwrap();
    assert_eq!(cpu.gp.t0, 0x5566_7788);
    assert_eq!(cpu.gp.t1, 0x1122_3344);
    assert_eq!(cpu.gp.t2, 0x89AB_CDEF);
    assert_eq!(cpu.gp.t3, 0x0123_4567);
    assert_eq!(cpu.pc, 8);
}

#[test]
fn sleep_costs_cycles_when_the_clock_is_steady() {
    assert_eq!(cycles_of_sleep(1), 1);
    assert_eq!(cycles_of_sleep(5), 1);
    assert_eq!(cycles_of_sleep(6), 2);
    assert_eq!(cycles_of_sleep(10), 2);
    assert_eq!(cycles_of_sleep(1_000_000), 200_000);
    assert_eq!(cycles_of_sleep(u64::MAX), 0x3333_3333);
    assert_eq!(cycles_of_sleep(u64::MAX - 1), 0x3333_3333);
    assert_eq!(cycles_of_sleep(0), 1);
    assert_eq!(pacing_wait(1, 0), 5);
    assert_eq!(pacing_wait(3, 4), 11);
    assert_eq!(pacing_wait(3, 15), 0);
    assert_eq!(pacing_wait(3, 100), 0);
    assert_eq!(pacing_wait(u32::MAX, 0), 5 * (u32::MAX as u64));

    let mut emu = Emulator::new(&[]).unwrap();
    let mut cpu = Cpu::new();
    let mut stop = false;
    let mut clk = 1;
    let slp = with_imm(InstructionType::Slp, Reg::Zr, Reg::Zr, Reg::Zr, 12);
    match cpu.process(slp, &mut emu.mmu, &mut stop, &mut clk, false).unwrap() {
        Effect::Sleep(us) => assert_eq!(us, 12),
        other => panic!("{other:?}"),
    }
    assert_eq!(clk, 1);
    match cpu.process(slp, &mut emu.mmu, &mut stop, &mut clk, true).unwrap() {
        Effect::Sleep(us) => assert_eq!(us, 12),
        other => panic!("{other:?}"),
    }
    assert_eq!(clk, 3);
    cpu.gp.set_reg(Reg::T0, 2);
    cpu.gp.set_reg(Reg::T1, 7);
    let slp = plain(InstructionType::Slp, Reg::Zr, Reg::T0, Reg::T1);
    match cpu.process(slp, &mut emu.mmu, &mut stop, &mut clk, true).unwrap() {
        Effect::Sleep(us) => assert_eq!(us, (2u64 << 32) | 7),
        other => panic!("{other:?}"),
    }
    assert_eq!(clk, cycles_of_sleep((2u64 << 32) | 7));
    assert_eq!(cpu.pc, 20);
}

#[test]
fn loads_and_stores_are_checked() {
    let mut emu = Emulator::new(&[]).unwrap();
    emu.mmu.memwrite(0x4000, &[0x78, 0x56, 0x34, 0x12]).unwrap();
    let mut cpu = Cpu::new();
    let mut stop = false;
    let mut clk = 1;
    let ld = with_imm(InstructionType::Ld, Reg::T0, Reg::Zr, Reg::Zr, 0x4000);
    cpu.process(ld, &mut emu.mmu, &mut stop, &mut clk, false).unwrap();
    assert_eq!(cpu.gp.t0, 0x12345678);
    let ldw = with_imm(InstructionType::Ldw, Reg::T0, Reg::Zr, Reg::Zr, 0x4000);
    cpu.process(ldw, &mut emu.mmu, &mut stop, &mut clk, false).unwrap();
    assert_eq!(cpu.gp.t0, 0x5678);
    let ldb = with_imm(InstructionType::Ldb, Reg::T0, Reg::Zr, Reg::Zr, 0x4000);
    cpu.process(ldb, &mut emu.mmu, &mut stop, &mut clk, false).unwrap();
    assert_eq!(cpu.gp.t0, 0x78);
    assert_eq!(cpu.pc, 24);

    let far = with_imm(InstructionType::Ld, Reg::T0, Reg::Zr, Reg::Zr, 0xFFFF_FFFD);
    assert_eq!(
        cpu.process(far, &mut emu.mmu, &mut stop, &mut clk, false).map(|_| ()),
        Err(CpuError::Overflow)
    );
    cpu.gp.set_reg(Reg::T1, 0xFFFF_FFFF);
    let far = with_imm(InstructionType::Strw, Reg::T1, Reg::Zr, Reg::Zr, 0xABCD);
    assert_eq!(
        cpu.process(far, &mut emu.mmu, &mut stop, &mut clk, false).map(|_| ()),
        Err(CpuError::Overflow)
    );
    assert_eq!(emu.mmu.read::<u8>(0xFFFF_FFFF), Ok(0));
    emu.mmu.set_prot(AddressRange::single(0x4000), Protection::of(Prot::Write));
    assert_eq!(
        cpu.process(ld, &mut emu.mmu, &mut stop, &mut clk, false).map(|_| ()),
        Err(CpuError::Mem(MemError::PageFault(Protection::of(Prot::Read))))
    );
    assert_eq!(cpu.pc, 24);
    assert_eq!(cpu.gp.t0, 0x78);
    for ty in [
        InstructionType::Pld,
        InstructionType::Pldw,
        InstructionType::Pldb,
        InstructionType::Pstr,
        InstructionType::Pstrw,
        InstructionType::Pstrb,
        InstructionType::Kbrd,
        InstructionType::Draw,
    ] {
        let inst = plain(ty, Reg::T0, Reg::T1, Reg::Zr);
        assert_eq!(
            cpu.process(inst, &mut emu.mmu, &mut stop, &mut clk, false).map(|_| ()),
            Err(CpuError::UnsupportedInst(inst))
        );
    }
}

#[test]
fn stack_needs_readable_and_writable_pages() {
    let mut emu = Emulator::new(&[]).unwrap();
    emu.mmu.set_prot(AddressRange::single(0x5000), Protection::of(Prot::Read));
    let mut cpu = Cpu::new();
    cpu.gp.sp = 0x5004;
    cpu.gp.ra = 0x99;
    let mut stop = false;
    let mut clk = 1;
    let push = plain(InstructionType::Push, Reg::Zr, Reg::T0, Reg::Zr);
    let fault = Err(CpuError::Mem(MemError::PageFault(Protection::of(Prot::Write))));
    assert_eq!(cpu.process(push, &mut emu.mmu, &mut stop, &mut clk, false).map(|_| ()), fault);
    assert_eq!(cpu.gp.sp, 0x5004);
    let call = with_imm(InstructionType::Call, Reg::Zr, Reg::Zr, Reg::Zr, 0x40);
    assert_eq!(cpu.process(call, &mut emu.mmu, &mut stop, &mut clk, false).map(|_| ()), fault);
    assert_eq!(cpu.pc, 0);
    assert_eq!(cpu.gp.ra, 0x99);
    cpu.gp.sp = 0x5000;
    let pop = plain(InstructionType::Pop, Reg::T1, Reg::Zr, Reg::Zr);
    assert_eq!(cpu.process(pop, &mut emu.mmu, &mut stop, &mut clk, false).map(|_| ()), fault);
    let ret = plain(InstructionType::Ret, Reg::Zr, Reg::Zr, Reg::Zr);
    assert_eq!(cpu.process(ret, &mut emu.mmu, &mut stop, &mut clk, false).map(|_| ()), fault);
    assert_eq!(cpu.gp.sp, 0x5000);
    assert_eq!(clk, 1);
    cpu.gp.sp = 3;
    cpu.pc = 0x44;
    assert_eq!(
        cpu.process(call, &mut emu.mmu, &mut stop, &mut clk, false).map(|_| ()),
        Err(CpuError::StackOverflow(0x44))
    );
    cpu.gp.sp = 0xFFFF_FFFD;
    assert_eq!(
        cpu.process(ret, &mut emu.mmu, &mut stop, &mut clk, false).map(|_| ()),
        Err(CpuError::StackUnderflow(0xFFFF_FFFD))
    );
}

#[test]
fn run_pauses_for_the_host() {
    let mut bytes = Vec::new();
    bytes.extend(plain(InstructionType::Nop, Reg::Zr, Reg::Zr, Reg::Zr).encode());
    bytes.extend(with_imm(InstructionType::Slp, Reg::Zr, Reg::Zr, Reg::Zr, 9).encode());
    bytes.extend(plain(InstructionType::Nop, Reg::Zr, Reg::Zr, Reg::Zr).encode());
    bytes.extend(plain(InstructionType::Nop, Reg::Zr, Reg::Zr, Reg::Zr).encode());
    bytes.extend(plain(InstructionType::Hlt, Reg::Zr, Reg::Zr, Reg::Zr).encode());
    bytes.extend([0x00, 0x0b, 0, 0, 0, 0, 0, 0]);
    let mut emu = Emulator::new(&bytes).unwrap();
    assert!(matches!(emu.run(0), Ok(Pause::Budget)));
    assert_eq!(emu.cpu.pc, 0);
    match emu.run(10) {
        Ok(Pause::Host(Effect::Sleep(us))) => assert_eq!(us, 9),
        other => panic!("{other:?}"),
    }
    assert_eq!(emu.cpu.pc, 12);
    assert_eq!(emu.cpu.clk, 2);
    assert!(matches!(emu.run(1), Ok(Pause::Budget)));
    assert_eq!(emu.cpu.pc, 16);
    assert!(matches!(emu.run(10), Ok(Pause::Halted)));
    assert_eq!(emu.cpu.pc, 20);
    assert_eq!(emu.cpu.clk, 4);
    emu.cpu.pc = 24;
    assert_eq!(
        emu.run(10).map(|_| ()),
        Err(EmuError::Inst(InstError::UnknownInstruction(0, 0x0b)))
    );
}

#[test]
fn cycles_are_counted() {
    // nop ; nop ; push t0 ; pop t0 ; rdclk t0,t1 ; hlt
    let mut bytes = Vec::new();
    bytes.extend(plain(InstructionType::Nop, Reg::Zr, Reg::Zr, Reg::Zr).encode());
    bytes.extend(plain(InstructionType::Nop, Reg::Zr, Reg::Zr, Reg::Zr).encode());
    bytes.extend(plain(InstructionType::Push, Reg::Zr, Reg::T0, Reg::Zr).encode());
    bytes.extend(plain(InstructionType::Pop, Reg::T0, Reg::Zr, Reg::Zr).encode());
    bytes.extend(plain(InstructionType::Rdclk, Reg::Zr, Reg::T0, Reg::T1).encode());
    bytes.extend(plain(InstructionType::Hlt, Reg::Zr, Reg::Zr, Reg::Zr).encode());
    let mut emu = Emulator::new(&bytes).unwrap();
    assert!(matches!(emu.run(100), Ok(Pause::Halted)));
    assert_eq!(((emu.cpu.gp.t1 as u64) << 32) | emu.cpu.gp.t0 as u64, 6);
    assert_eq!(emu.cpu.clk, 7);
    emu.cpu.clk = 0x1_2345_6789;
    emu.cpu.pc = 16;
    emu.step().unwrap();
    assert_eq!(emu.cpu.gp.t0, 0x2345_6789);
    assert_eq!(emu.cpu.gp.t1, 1);
}

#[test]
fn instructions_as_text() {
    let t = |inst: Instruction| inst.to_text();
    assert_eq!(t(plain(InstructionType::Nop, Reg::T0, Reg::T1, Reg::T2)), "nop");
    assert_eq!(t(plain(InstructionType::Ret, Reg::T0, Reg::T1, Reg::T2)), "ret");
    assert_eq!(t(plain(InstructionType::Add, Reg::T0, Reg::T1, Reg::T2)), "add t0, t1, t2");
    assert_eq!(
        t(with_imm(InstructionType::Add, Reg::T0, Reg::T1, Reg::T2, 0xAB)),
        "add t0, t1, 0x000000ab"
    );
    assert_eq!(t(plain(InstructionType::Mov, Reg::S11, Reg::A7, Reg::Zr)), "mov s11, a7");
    assert_eq!(
        t(with_imm(InstructionType::Mov, Reg::T0, Reg::Zr, Reg::Zr, 0x12345678)),
        "mov t0, 0x12345678"
    );
    assert_eq!(t(plain(InstructionType::Ld, Reg::T1, Reg::T0, Reg::Zr)), "ld t1, [t0]");
    assert_eq!(
        t(with_imm(InstructionType::Ldw, Reg::T1, Reg::T0, Reg::Zr, 0xFFFF_FFFF)),
        "ld.w t1, [0xffffffff]"
    );
    assert_eq!(t(plain(InstructionType::Strb, Reg::T0, Reg::T1, Reg::Zr)), "str.b [t0], t1");
    assert_eq!(
        t(with_imm(InstructionType::Str, Reg::T0, Reg::Zr, Reg::Zr, 0x52355678)),
        "str [t0], 0x52355678"
    );
    assert_eq!(t(plain(InstructionType::Pstrw, Reg::Sp, Reg::Gp, Reg::Zr)), "pstr.w [sp], gp");
    assert_eq!(t(plain(InstructionType::Je, Reg::T2, Reg::T0, Reg::T1)), "je t0, t1, t2");
    assert_eq!(
        t(with_imm(InstructionType::Ja, Reg::T2, Reg::T0, Reg::T1, 0x40)),
        "ja t0, t1, 0x00000040"
    );
    assert_eq!(t(plain(InstructionType::Jmp, Reg::Ra, Reg::Zr, Reg::Zr)), "jmp ra");
    assert_eq!(t(with_imm(InstructionType::Jmp, Reg::Ra, Reg::Zr, Reg::Zr, 0)), "jmp 0x00000000");
    assert_eq!(t(plain(InstructionType::Push, Reg::Zr, Reg::T0, Reg::Zr)), "push t0");
    assert_eq!(t(plain(InstructionType::Pop, Reg::T1, Reg::Zr, Reg::Zr)), "pop t1");
    assert_eq!(t(plain(InstructionType::Rdclk, Reg::Zr, Reg::T0, Reg::T1)), "rdclk t0, t1");
    assert_eq!(t(plain(InstructionType::Inc, Reg::T5, Reg::T0, Reg::T1)), "inc t5");
    // a form that the kind does not have shows the mnemonic alone
    assert_eq!(t(with_imm(InstructionType::Push, Reg::Zr, Reg::T0, Reg::Zr, 1)), "push");
    assert_eq!(t(plain(InstructionType::Tme, Reg::Zr, Reg::T0, Reg::T1)), "tme");
    assert_eq!(
        t(with_imm(InstructionType::Tme, Reg::Zr, Reg::T0, Reg::T1, 0x0506_0708)),
        "tme t0, t1, t0, t1"
    );
    assert_eq!(
        trace_line(0x1C, &plain(InstructionType::Hlt, Reg::Zr, Reg::Zr, Reg::Zr)),
        "0x0000001c: hlt"
    );
    assert_eq!(
        trace_line(0xDEADBEEF, &plain(InstructionType::Sub, Reg::A0, Reg::A1, Reg::A2)),
        "0xdeadbeef: sub a0, a1, a2"
    );
    assert_eq!(
        operands(InstructionType::Str, true),
        vec![RegOpts::Brackets, RegOpts::Dst, RegOpts::Imm]
    );
    assert_eq!(operands(InstructionType::Hlt, false), vec![]);
    assert_eq!(InstructionType::Pldb.mnemonic(), "pld.b");
}

#[test]
fn monitor_copies_the_frame() {
    let mut mmu = Mmu::new();
    let args = MonitorArgs::from([2, 0, 3, 0, 60, 0]);
    assert_eq!(args, MonitorArgs { width: 2, height: 3, fps: 60 });
    assert_eq!(
        MonitorArgs::from([0x34, 0x12, 0xFF, 0xFF, 0x00, 0x01]),
        MonitorArgs { width: 0x1234, height: 0xFFFF, fps: 0x100 }
    );
    let mut monitor = Monitor::new(0x8000, args);
    assert_eq!(monitor.frame(), &vec![0u32; 6]);
    assert!(monitor.is_running());
    assert_eq!(monitor.args(), args);
    for i in 0..6u32 {
        mmu.write_unchecked(0x8000 + 4 * i, 0x00FF_0000 + i).unwrap();
    }
    assert_eq!(monitor.draw(&mmu), Ok(()));
    assert_eq!(
        monitor.frame(),
        &vec![0x00FF_0000, 0x00FF_0001, 0x00FF_0002, 0x00FF_0003, 0x00FF_0004, 0x00FF_0005]
    );
    monitor.update(0x8004);
    assert_eq!(monitor.frame()[0], 0x00FF_0000);
    assert_eq!(monitor.draw(&mmu), Ok(()));
    assert_eq!(
        monitor.frame(),
        &vec![0x00FF_0001, 0x00FF_0002, 0x00FF_0003, 0x00FF_0004, 0x00FF_0005, 0]
    );
    monitor.update(0xFFFF_FFE9);
    assert_eq!(monitor.draw(&mmu), Err(MemError::Overflow));
    assert_eq!(monitor.frame()[0], 0x00FF_0001);
    monitor.update(0xFFFF_FFE8);
    assert_eq!(monitor.draw(&mmu), Ok(()));
    assert_eq!(monitor.frame(), &vec![0u32; 6]);
    monitor.stop();
    assert!(!monitor.is_running());
    let mut blank = Monitor::new(0xFFFF_FFFF, MonitorArgs { width: 0, height: 9, fps: 1 });
    assert_eq!(blank.draw(&mmu), Ok(()));
    assert_eq!(blank.frame(), &Vec::<u32>::new());
}

#[test]
fn effects_and_errors_pass_through() {
    match print_effect(InstructionType::Pr, String::from("out")) {
        Effect::Print(text) => assert_eq!(text, "out"),
        other => panic!("{other:?}"),
    }
    match print_effect(InstructionType::Epr, String::from("err")) {
        Effect::Eprint(text) => assert_eq!(text, "err"),
        other => panic!("{other:?}"),
    }
    assert_eq!(cpu_error(MemError::Overflow), CpuError::Overflow);
    let fault = MemError::PageFault(Protection::of(Prot::Read));
    assert_eq!(cpu_error(fault), CpuError::Mem(fault));
}

#[test]
fn step_at_reads_the_given_clock() {
    let imm = u32::from_le_bytes([Reg::A2.index(), Reg::A3.index(), 0, 0]);
    let tme = with_imm(InstructionType::Tme, Reg::Zr, Reg::A0, Reg::A1, imm);
    let mut emu = Emulator::new(&tme.encode()).unwrap();
    let step = emu.step_at(0x0000_0004_0000_0003_0000_0002_0000_0001).unwrap();
    assert!(!step.stop);
    assert_eq!(step.cycles, 1);
    assert!(matches!(step.effect, Effect::Nothing));
    assert_eq!(emu.cpu.gp.a0, 1);
    assert_eq!(emu.cpu.gp.a1, 2);
    assert_eq!(emu.cpu.gp.a2, 3);
    assert_eq!(emu.cpu.gp.a3, 4);
    assert_eq!(emu.cpu.pc, 8);
    assert_eq!(emu.cpu.clk, 1);
}
