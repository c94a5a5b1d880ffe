use riscv_emu::cpu::Cpu;
use riscv_emu::exec::CpuError;
use riscv_emu::exec::ExecError;
use riscv_emu::regs::Instruction;
use riscv_emu::regs::InstructionFormat;
use riscv_emu::regs::R3Inst;
use riscv_emu::regs::RegImmInst;
use riscv_emu::regs::RegRegInst;
use riscv_emu::regs::StoreInst;

fn fresh_cpu() -> Cpu {
    Cpu::new(vec![0; 16])
}

#[test]
fn wraparound_add_and_sub() {
    let mut cpu = fresh_cpu();
    let add = RegRegInst { rs1: 1, rs2: 2, rd: 3, instName: Instruction::ADD };
    cpu.regs[1] = u64::MAX;
    cpu.regs[2] = 1;
    let _ = cpu.execute(InstructionFormat::R(add));
    assert_eq!(cpu.regs[3], 0);

    let sub = RegRegInst { rs1: 1, rs2: 2, rd: 3, instName: Instruction::SUB };
    cpu.regs[1] = 0;
    cpu.regs[2] = 1;
    let _ = cpu.execute(InstructionFormat::R(sub));
    assert_eq!(cpu.regs[3], u64::MAX);
}

#[test]
fn word_truncation_addw() {
    let mut cpu = fresh_cpu();
    let addw = RegRegInst { rs1: 1, rs2: 2, rd: 3, instName: Instruction::ADDW };
    cpu.regs[1] = 0xffffffff;
    cpu.regs[2] = 1;
    let _ = cpu.execute(InstructionFormat::R(addw));
    assert_eq!(cpu.regs[3], 0);
    assert_ne!(cpu.regs[3], 0x100000000);
}

#[test]
fn nan_box_round_trip() {
    let finite = (1.5f32).to_bits();
    assert_eq!(Cpu::unbox_float(Cpu::box_float(finite)), finite);
    assert_eq!(f32::from_bits(Cpu::unbox_float(Cpu::box_float(finite))), 1.5f32);

    let nan_pattern: u32 = 0x7fc0_0001;
    assert_eq!(Cpu::unbox_float(Cpu::box_float(nan_pattern)), nan_pattern);

    assert_eq!(Cpu::box_float((1.0f32).to_bits()), 0xffff_ffff_3f80_0000);
}

#[test]
fn branch_offset_full_cycle() {
    // A taken branch lands the counter at start + (imm << 1) once the
    // cycle's unconditional advance is in; a branch not taken lands it at
    // start + 4. The branch word is fetched from memory by `step`.
    let beq = riscv_emu::regs::BranchInst { rs1: 1, rs2: 2, imm: 12, instName: Instruction::BEQ };
    let word = InstructionFormat::B(beq).encode();

    let mut cpu = fresh_cpu();
    cpu.bus.store(0, word as u64, 4);
    cpu.regs[1] = 7;
    cpu.regs[2] = 7;
    cpu.pc = 0;
    assert!(cpu.step().is_ok());
    assert_eq!(cpu.pc, 24);

    let mut cpu = fresh_cpu();
    cpu.bus.store(0, word as u64, 4);
    cpu.regs[1] = 7;
    cpu.regs[2] = 8;
    cpu.pc = 0;
    assert!(cpu.step().is_ok());
    assert_eq!(cpu.pc, 4);
}

#[test]
fn addi_scenario() {
    let mut cpu = fresh_cpu();
    let mut inst = RegImmInst { rs1: 1, rd: 1, instName: Instruction::ADDI, imm: 1 };
    let _ = cpu.execute(InstructionFormat::I(inst));
    assert_eq!(cpu.regs[1], 1);

    inst.imm = -1;
    let _ = cpu.execute(InstructionFormat::I(inst));
    let _ = cpu.execute(InstructionFormat::I(inst));
    assert_eq!(cpu.regs[1], 0xffffffffffffffff);
}

#[test]
fn mulhu_scenario() {
    let mut cpu = fresh_cpu();
    let inst = RegRegInst { rs1: 1, rs2: 2, rd: 3, instName: Instruction::MULHU };
    cpu.regs[1] = u64::MAX;
    cpu.regs[2] = u64::MAX;
    let _ = cpu.execute(InstructionFormat::R(inst));
    assert_eq!(cpu.regs[3], u64::MAX - 1);
}

#[test]
fn sb_lbu_round_trip() {
    let mut cpu = fresh_cpu();
    let sb = StoreInst { rs1: 1, rs2: 2, instName: Instruction::SB, imm: 0 };
    cpu.regs[1] = 0;
    cpu.regs[2] = 0xff;
    let _ = cpu.execute(InstructionFormat::S(sb));

    let lbu = RegImmInst { rs1: 1, rd: 3, instName: Instruction::LBU, imm: 0 };
    let _ = cpu.execute(InstructionFormat::I(lbu));
    assert_eq!(cpu.regs[3], 0xff);

    let lb = RegImmInst { rs1: 1, rd: 3, instName: Instruction::LB, imm: 0 };
    let _ = cpu.execute(InstructionFormat::I(lb));
    assert_eq!(cpu.regs[3] as i64, -1);
}

#[test]
fn csrrs_x0_reads_without_writing() {
    let mut cpu = fresh_cpu();
    cpu.csrs[0x305] = 0xabcd;

    let csrrs = RegImmInst { rs1: 0, rd: 3, instName: Instruction::CSRRS, imm: 0x305 };
    let _ = cpu.execute(InstructionFormat::I(csrrs));
    assert_eq!(cpu.regs[3], 0xabcd);
    assert_eq!(cpu.csrs[0x305], 0xabcd);
}

#[test]
fn csrrw_swaps() {
    let mut cpu = fresh_cpu();
    cpu.csrs[0x340] = 5;
    cpu.regs[1] = 9;
    let csrrw = RegImmInst { rs1: 1, rd: 2, instName: Instruction::CSRRW, imm: 0x340 };
    let _ = cpu.execute(InstructionFormat::I(csrrw));
    assert_eq!(cpu.regs[2], 5);
    assert_eq!(cpu.csrs[0x340], 9);

    // With destination register 0 the prior value is not read out, but the
    // write still lands.
    cpu.regs[1] = 11;
    let silent = RegImmInst { rs1: 1, rd: 0, instName: Instruction::CSRRW, imm: 0x340 };
    let _ = cpu.execute(InstructionFormat::I(silent));
    assert_eq!(cpu.regs[0], 0);
    assert_eq!(cpu.csrs[0x340], 11);
}

#[test]
fn csrrc_clears_bits() {
    let mut cpu = fresh_cpu();
    cpu.csrs[0x304] = 0b1111;
    cpu.regs[1] = 0b0101;
    let csrrc = RegImmInst { rs1: 1, rd: 2, instName: Instruction::CSRRC, imm: 0x304 };
    let _ = cpu.execute(InstructionFormat::I(csrrc));
    assert_eq!(cpu.regs[2], 0b1111);
    assert_eq!(cpu.csrs[0x304], 0b1010);
}

#[test]
fn csr_immediate_forms() {
    let mut cpu = fresh_cpu();
    // The rs1 field is a five-bit literal for the immediate forms.
    let csrrwi = RegImmInst { rs1: 21, rd: 2, instName: Instruction::CSRRWI, imm: 0x100 };
    let _ = cpu.execute(InstructionFormat::I(csrrwi));
    assert_eq!(cpu.csrs[0x100], 21);

    let csrrsi = RegImmInst { rs1: 8, rd: 2, instName: Instruction::CSRRSI, imm: 0x100 };
    let _ = cpu.execute(InstructionFormat::I(csrrsi));
    assert_eq!(cpu.regs[2], 21);
    assert_eq!(cpu.csrs[0x100], 21 | 8);

    let csrrci = RegImmInst { rs1: 16, rd: 2, instName: Instruction::CSRRCI, imm: 0x100 };
    let _ = cpu.execute(InstructionFormat::I(csrrci));
    assert_eq!(cpu.regs[2], 29);
    assert_eq!(cpu.csrs[0x100], 13);
}

#[test]
fn amo_add_word() {
    let mut cpu = fresh_cpu();
    cpu.bus.store(8, 0xffffffff, 4);
    cpu.regs[1] = 8;
    cpu.regs[2] = 2;
    let inst = RegRegInst { rs1: 1, rs2: 2, rd: 3, instName: Instruction::AMOADDW };
    let _ = cpu.execute(InstructionFormat::R(inst));
    // The old word comes back sign-extended; the sum wraps at 32 bits.
    assert_eq!(cpu.regs[3], 0xffffffffffffffff);
    assert_eq!(cpu.bus.load(8, 4), 1);
}

#[test]
fn amo_add_doubleword() {
    let mut cpu = fresh_cpu();
    cpu.bus.store(8, u64::MAX, 8);
    cpu.regs[1] = 8;
    cpu.regs[2] = 3;
    let inst = RegRegInst { rs1: 1, rs2: 2, rd: 3, instName: Instruction::AMOADDD };
    let _ = cpu.execute(InstructionFormat::R(inst));
    assert_eq!(cpu.regs[3], u64::MAX);
    assert_eq!(cpu.bus.load(8, 8), 2);
}

#[test]
fn amo_swap_doubleword() {
    let mut cpu = fresh_cpu();
    cpu.bus.store(8, 0x1122334455667788, 8);
    cpu.regs[1] = 8;
    cpu.regs[2] = 0x8877665544332211;
    let inst = RegRegInst { rs1: 1, rs2: 2, rd: 3, instName: Instruction::AMOSWAPD };
    let _ = cpu.execute(InstructionFormat::R(inst));
    assert_eq!(cpu.regs[3], 0x1122334455667788);
    assert_eq!(cpu.bus.load(8, 8), 0x8877665544332211);
}

#[test]
fn amo_max_and_min_word() {
    let mut cpu = fresh_cpu();
    cpu.bus.store(8, 0xfffffffe, 4);  // -2 as a signed word
    cpu.regs[1] = 8;
    cpu.regs[2] = 1;
    let amomax = RegRegInst { rs1: 1, rs2: 2, rd: 3, instName: Instruction::AMOMAXW };
    let _ = cpu.execute(InstructionFormat::R(amomax));
    assert_eq!(cpu.regs[3] as i64, -2);
    assert_eq!(cpu.bus.load(8, 4), 1);

    let amominu = RegRegInst { rs1: 1, rs2: 2, rd: 4, instName: Instruction::AMOMINUW };
    cpu.regs[2] = 7;
    let _ = cpu.execute(InstructionFormat::R(amominu));
    // Unsigned word results come back zero-extended.
    assert_eq!(cpu.regs[4], 1);
    assert_eq!(cpu.bus.load(8, 4), 1);
}

#[test]
fn lr_sc_as_plain_accesses() {
    let mut cpu = fresh_cpu();
    cpu.bus.store(4, 0xffffffff, 4);
    cpu.regs[1] = 4;
    let lrw = RegRegInst { rs1: 1, rs2: 0, rd: 3, instName: Instruction::LRW };
    let _ = cpu.execute(InstructionFormat::R(lrw));
    assert_eq!(cpu.regs[3] as i64, -1);

    cpu.regs[2] = 0xaabbccdd;
    let scw = RegRegInst { rs1: 1, rs2: 2, rd: 3, instName: Instruction::SCW };
    let _ = cpu.execute(InstructionFormat::R(scw));
    assert_eq!(cpu.bus.load(4, 4), 0xaabbccdd);
}

#[test]
fn float_unit_is_delegated() {
    let mut cpu = fresh_cpu();
    let fadds = RegRegInst { rs1: 1, rs2: 2, rd: 3, instName: Instruction::FADDS };
    let pc_before = cpu.pc;
    let r = cpu.execute(InstructionFormat::R(fadds));
    assert_eq!(r, Err(ExecError::FloatUnit));
    assert_eq!(cpu.pc, pc_before);
    assert_eq!(cpu.regs[3], 0);

    let fmadds = R3Inst { rs1: 1, rs2: 2, rs3: 4, rd: 3, instName: Instruction::FMADDS };
    assert_eq!(cpu.execute(InstructionFormat::R4(fmadds)), Err(ExecError::FloatUnit));
}

#[test]
fn unimplemented_is_reported() {
    let mut cpu = fresh_cpu();
    let fclass = RegRegInst { rs1: 1, rs2: 0, rd: 3, instName: Instruction::FCLASSS };
    assert_eq!(cpu.execute(InstructionFormat::R(fclass)), Err(ExecError::NotImplemented));

    let fmaddd = R3Inst { rs1: 1, rs2: 2, rs3: 4, rd: 3, instName: Instruction::FMADDD };
    assert_eq!(cpu.execute(InstructionFormat::R4(fmaddd)), Err(ExecError::NotImplemented));
}

#[test]
fn memory_fault_is_reported() {
    let mut cpu = fresh_cpu();
    cpu.regs[1] = u64::MAX;
    let lb = RegImmInst { rs1: 1, rd: 3, instName: Instruction::LB, imm: 0 };
    assert_eq!(cpu.execute(InstructionFormat::I(lb)), Err(ExecError::MemoryFault));
    assert_eq!(cpu.regs[3], 0);

    let sb = StoreInst { rs1: 1, rs2: 2, instName: Instruction::SB, imm: 0 };
    assert_eq!(cpu.execute(InstructionFormat::S(sb)), Err(ExecError::MemoryFault));
}

#[test]
fn fmin_fmax_propagate_over_nan() {
    let mut cpu = fresh_cpu();
    let qnan: u32 = 0x7fc00000;
    let one = (1.0f32).to_bits();

    let fmin = RegRegInst { rs1: 1, rs2: 2, rd: 0, instName: Instruction::FMINS };
    cpu.fregs[1] = Cpu::box_float(qnan);
    cpu.fregs[2] = Cpu::box_float(one);
    let _ = cpu.execute(InstructionFormat::R(fmin));
    assert_eq!(Cpu::unbox_float(cpu.fregs[0]), one);

    let fmax = RegRegInst { rs1: 1, rs2: 2, rd: 0, instName: Instruction::FMAXS };
    cpu.fregs[1] = Cpu::box_float(one);
    cpu.fregs[2] = Cpu::box_float(qnan);
    let _ = cpu.execute(InstructionFormat::R(fmax));
    assert_eq!(Cpu::unbox_float(cpu.fregs[0]), one);

    cpu.fregs[1] = Cpu::box_float(0x7fc00001);
    cpu.fregs[2] = Cpu::box_float(0xffc00000);
    let _ = cpu.execute(InstructionFormat::R(fmax));
    assert_eq!(Cpu::unbox_float(cpu.fregs[0]), qnan);
}

#[test]
fn compares_on_nan_are_false() {
    let mut cpu = fresh_cpu();
    let qnan: u32 = 0x7fc00000;
    cpu.fregs[1] = Cpu::box_float(qnan);
    cpu.fregs[2] = Cpu::box_float(qnan);

    for name in [Instruction::FEQS, Instruction::FLTS, Instruction::FLES] {
        cpu.regs[3] = 7;
        let inst = RegRegInst { rs1: 1, rs2: 2, rd: 3, instName: name };
        let _ = cpu.execute(InstructionFormat::R(inst));
        assert_eq!(cpu.regs[3], 0);
    }
}

#[test]
fn register_zero_writes_are_discarded() {
    // Register 0 is hardwired: a result aimed at it is discarded at the
    // point of write, so it reads as zero even within the same instruction.
    let mut cpu = fresh_cpu();
    let add = RegRegInst { rs1: 1, rs2: 2, rd: 0, instName: Instruction::ADD };
    cpu.regs[1] = 5;
    cpu.regs[2] = 7;
    let _ = cpu.execute(InstructionFormat::R(add));
    assert_eq!(cpu.regs[0], 0);

    // A jump linking through register 0 discards the link and computes its
    // target from the zero it still reads.
    let mut cpu = fresh_cpu();
    cpu.pc = 0x100;
    let jalr = RegImmInst { rs1: 0, rd: 0, instName: Instruction::JALR, imm: 64 };
    let _ = cpu.execute(InstructionFormat::I(jalr));
    assert_eq!(cpu.regs[0], 0);
    assert_eq!(cpu.pc.wrapping_add(4), 64);
}

#[test]
fn zeroes_compare_equal() {
    let mut cpu = fresh_cpu();
    cpu.fregs[1] = Cpu::box_float(0x80000000);  // negative zero
    cpu.fregs[2] = Cpu::box_float(0x00000000);  // positive zero
    let feq = RegRegInst { rs1: 1, rs2: 2, rd: 3, instName: Instruction::FEQS };
    let _ = cpu.execute(InstructionFormat::R(feq));
    assert_eq!(cpu.regs[3], 1);

    let flt = RegRegInst { rs1: 1, rs2: 2, rd: 3, instName: Instruction::FLTS };
    let _ = cpu.execute(InstructionFormat::R(flt));
    assert_eq!(cpu.regs[3], 0);
}

#[test]
fn step_runs_one_cycle() {
    // addi x1, x1, 1 encoded, fetched at the counter, executed, counter
    // advanced by four.
    let addi = RegImmInst { rs1: 1, rd: 1, instName: Instruction::ADDI, imm: 1 };
    let word = InstructionFormat::I(addi).encode();
    let mut cpu = fresh_cpu();
    cpu.bus.store(0, word as u64, 4);
    assert!(cpu.step().is_ok());
    assert_eq!(cpu.regs[1], 1);
    assert_eq!(cpu.pc, 4);
}

#[test]
fn step_re_zeroes_register_zero() {
    // An instruction aiming at register 0 has its write discarded, and the
    // cycle's trailing clamp additionally restores the zero register even
    // when a caller scribbled on it between cycles.
    let addi = RegImmInst { rs1: 0, rd: 0, instName: Instruction::ADDI, imm: 7 };
    let word = InstructionFormat::I(addi).encode();
    let mut cpu = fresh_cpu();
    cpu.bus.store(0, word as u64, 4);
    cpu.regs[0] = 9;
    assert!(cpu.step().is_ok());
    assert_eq!(cpu.regs[0], 0);
    assert_eq!(cpu.pc, 4);
}

#[test]
fn step_reports_errors() {
    // An all-zero word decodes to nothing.
    let mut cpu = fresh_cpu();
    let r = cpu.step();
    assert!(matches!(r, Err(CpuError::Decode(_))));
    assert_eq!(cpu.pc, 0);

    // A counter past the end of memory is a memory fault.
    let mut cpu = fresh_cpu();
    cpu.pc = u64::MAX - 1;
    assert_eq!(cpu.step(), Err(CpuError::Exec(ExecError::MemoryFault)));
}

#[test]
fn fmv_moves_bits() {
    let mut cpu = fresh_cpu();
    let bits = (1.0f32).to_bits();
    cpu.regs[1] = bits as u64;
    let fmvwx = RegRegInst { rs1: 1, rs2: 0, rd: 2, instName: Instruction::FMVWX };
    let _ = cpu.execute(InstructionFormat::R(fmvwx));
    assert_eq!(cpu.fregs[2], Cpu::box_float(bits));

    let fmvxw = RegRegInst { rs1: 2, rs2: 0, rd: 3, instName: Instruction::FMVXW };
    let _ = cpu.execute(InstructionFormat::R(fmvxw));
    assert_eq!(cpu.regs[3], bits as u64);

    // A pattern with the sign bit set comes back sign-extended.
    cpu.fregs[2] = Cpu::box_float(0x80000001);
    let _ = cpu.execute(InstructionFormat::R(fmvxw));
    assert_eq!(cpu.regs[3], 0xffffffff80000001);
}

#[test]
fn division_by_zero_convention() {
    let mut cpu = fresh_cpu();
    cpu.regs[1] = 42;
    cpu.regs[2] = 0;

    let div = RegRegInst { rs1: 1, rs2: 2, rd: 3, instName: Instruction::DIV };
    let _ = cpu.execute(InstructionFormat::R(div));
    assert_eq!(cpu.regs[3], u64::MAX);

    let divu = RegRegInst { rs1: 1, rs2: 2, rd: 3, instName: Instruction::DIVU };
    let _ = cpu.execute(InstructionFormat::R(divu));
    assert_eq!(cpu.regs[3], u64::MAX);

    let rem = RegRegInst { rs1: 1, rs2: 2, rd: 3, instName: Instruction::REM };
    let _ = cpu.execute(InstructionFormat::R(rem));
    assert_eq!(cpu.regs[3], 42);

    let remu = RegRegInst { rs1: 1, rs2: 2, rd: 3, instName: Instruction::REMU };
    let _ = cpu.execute(InstructionFormat::R(remu));
    assert_eq!(cpu.regs[3], 42);

    let divw = RegRegInst { rs1: 1, rs2: 2, rd: 3, instName: Instruction::DIVW };
    let _ = cpu.execute(InstructionFormat::R(divw));
    assert_eq!(cpu.regs[3], u64::MAX);

    let remw = RegRegInst { rs1: 1, rs2: 2, rd: 3, instName: Instruction::REMW };
    let _ = cpu.execute(InstructionFormat::R(remw));
    assert_eq!(cpu.regs[3], 42);
}

#[test]
fn division_overflow_convention() {
    let mut cpu = fresh_cpu();
    cpu.regs[1] = i64::MIN as u64;
    cpu.regs[2] = u64::MAX;  // -1

    let div = RegRegInst { rs1: 1, rs2: 2, rd: 3, instName: Instruction::DIV };
    let _ = cpu.execute(InstructionFormat::R(div));
    assert_eq!(cpu.regs[3], i64::MIN as u64);

    let rem = RegRegInst { rs1: 1, rs2: 2, rd: 3, instName: Instruction::REM };
    let _ = cpu.execute(InstructionFormat::R(rem));
    assert_eq!(cpu.regs[3], 0);

    cpu.regs[1] = (i32::MIN as i64) as u64;
    let divw = RegRegInst { rs1: 1, rs2: 2, rd: 3, instName: Instruction::DIVW };
    let _ = cpu.execute(InstructionFormat::R(divw));
    assert_eq!(cpu.regs[3], (i32::MIN as i64) as u64);

    let remw = RegRegInst { rs1: 1, rs2: 2, rd: 3, instName: Instruction::REMW };
    let _ = cpu.execute(InstructionFormat::R(remw));
    assert_eq!(cpu.regs[3], 0);
}
