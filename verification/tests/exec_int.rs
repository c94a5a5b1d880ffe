use riscv_emu::cpu::Cpu;
use riscv_emu::regs::Instruction;
use riscv_emu::regs::InstructionFormat;
use riscv_emu::regs::RegImmInst;
use riscv_emu::regs::RegRegInst;

#[test]
fn ADDI_test() {
    let fakeData: Vec<u8> = vec![0; 10];
    let mut cpu = Cpu::new(fakeData);
    let mut inst = RegImmInst { rs1: 1, rd: 1, instName: Instruction::ADDI, imm: 1 };
    let mut instFmt = InstructionFormat::I(inst);
    let _ = cpu.execute(instFmt);

    assert_eq!(cpu.regs[1], 1);

    inst.imm = -1;
    instFmt = InstructionFormat::I(inst);
    let _ = cpu.execute(instFmt);
    assert_eq!(cpu.regs[1], 0);

    inst.imm = -1;
    instFmt = InstructionFormat::I(inst);
    let _ = cpu.execute(instFmt);
    assert_eq!(cpu.regs[1] as i64, -1);
}

#[test]
fn ADDIW_test() {
    let fakeData: Vec<u8> = vec![0; 10];
    let mut cpu = Cpu::new(fakeData);
    let mut inst = RegImmInst { rs1: 1, rd: 1, instName: Instruction::ADDIW, imm: 1 };
    let mut instFmt = InstructionFormat::I(inst);
    let _ = cpu.execute(instFmt);

    assert_eq!(cpu.regs[1], 1);

    inst.imm = -1;
    instFmt = InstructionFormat::I(inst);
    let _ = cpu.execute(instFmt);
    assert_eq!(cpu.regs[1], 0);

    inst.imm = -1;
    instFmt = InstructionFormat::I(inst);
    let _ = cpu.execute(instFmt);
    assert_eq!(cpu.regs[1] as i64, -1);

    cpu.regs[1] = 0xffffffff;
    inst.imm = 1;

    instFmt = InstructionFormat::I(inst);
    let _ = cpu.execute(instFmt);
    assert_eq!(cpu.regs[1] as i64, 0);
}

#[test]
fn ADD_test() {
    let fakeData: Vec<u8> = vec![0; 10];
    let mut cpu = Cpu::new(fakeData);
    let inst = RegRegInst { rs1: 1, rs2: 2, rd: 1, instName: Instruction::ADD };
    let mut instFmt = InstructionFormat::R(inst);
    cpu.regs[1] = 0;
    cpu.regs[2] = 1;
    let _ = cpu.execute(instFmt);

    assert_eq!(cpu.regs[1], 1);

    cpu.regs[2] = u64::MAX - 1;
    instFmt = InstructionFormat::R(inst);
    let _ = cpu.execute(instFmt);
    assert_eq!(cpu.regs[1], u64::MAX);

    cpu.regs[2] = 1;
    instFmt = InstructionFormat::R(inst);
    let _ = cpu.execute(instFmt);
    assert_eq!(cpu.regs[1], 0);
}

#[test]
fn ADDW_test() {
    let fakeData: Vec<u8> = vec![0; 10];
    let mut cpu = Cpu::new(fakeData);
    let inst = RegRegInst { rs1: 1, rd: 1, instName: Instruction::ADDW, rs2: 2 };
    let mut instFmt = InstructionFormat::R(inst);
    cpu.regs[2] = 1;
    let _ = cpu.execute(instFmt);

    assert_eq!(cpu.regs[1], 1);

    cpu.regs[2] = u64::MAX;
    instFmt = InstructionFormat::R(inst);
    let _ = cpu.execute(instFmt);
    assert_eq!(cpu.regs[1], 0);

    cpu.regs[1] = 0xffffffff;
    cpu.regs[2] = 1;

    instFmt = InstructionFormat::R(inst);
    let _ = cpu.execute(instFmt);
    assert_eq!(cpu.regs[1], 0);
}

#[test]
fn SUB_test() {
    let fakeData: Vec<u8> = vec![0; 10];
    let mut cpu = Cpu::new(fakeData);
    let inst = RegRegInst { rs1: 1, rs2: 2, rd: 1, instName: Instruction::SUB };
    let mut instFmt = InstructionFormat::R(inst);
    cpu.regs[1] = 0;
    cpu.regs[2] = 1;
    let _ = cpu.execute(instFmt);

    assert_eq!(cpu.regs[1], u64::MAX);

    cpu.regs[2] = 1;
    instFmt = InstructionFormat::R(inst);
    let _ = cpu.execute(instFmt);
    assert_eq!(cpu.regs[1], u64::MAX - 1);
}

#[test]
fn SUBW_test() {
    let fakeData: Vec<u8> = vec![0; 10];
    let mut cpu = Cpu::new(fakeData);
    let inst = RegRegInst { rs1: 1, rd: 1, instName: Instruction::SUBW, rs2: 2 };
    let mut instFmt = InstructionFormat::R(inst);
    cpu.regs[2] = 1;
    let _ = cpu.execute(instFmt);

    assert_eq!(cpu.regs[1], u64::MAX);

    cpu.regs[2] = u64::MAX;
    instFmt = InstructionFormat::R(inst);
    let _ = cpu.execute(instFmt);
    assert_eq!(cpu.regs[1], 0);

    cpu.regs[1] = 0xffffffff;
    cpu.regs[2] = 1;

    instFmt = InstructionFormat::R(inst);
    let _ = cpu.execute(instFmt);
    assert_eq!(cpu.regs[1], u64::MAX - 1);
}

#[test]
fn SLTI_test() {
    let fakeData: Vec<u8> = vec![0; 10];
    let mut cpu = Cpu::new(fakeData);
    let mut inst = RegImmInst { rs1: 1, rd: 1, instName: Instruction::SLTI, imm: 1 };
    let mut instFmt = InstructionFormat::I(inst);
    let _ = cpu.execute(instFmt);

    assert_eq!(cpu.regs[1], 1);

    inst.imm = -1;
    instFmt = InstructionFormat::I(inst);
    let _ = cpu.execute(instFmt);
    assert_eq!(cpu.regs[1], 0);
}

#[test]
fn SLT_test() {
    let fakeData: Vec<u8> = vec![0; 10];
    let mut cpu = Cpu::new(fakeData);
    let inst = RegRegInst { rs1: 1, rd: 1, instName: Instruction::SLT, rs2: 2 };
    cpu.regs[1] = 0;
    cpu.regs[2] = u64::MAX;
    let mut instFmt = InstructionFormat::R(inst);
    let _ = cpu.execute(instFmt);

    assert_eq!(cpu.regs[1], 0);

    cpu.regs[1] = 1;
    cpu.regs[2] = 2;
    instFmt = InstructionFormat::R(inst);
    let _ = cpu.execute(instFmt);
    assert_eq!(cpu.regs[1], 1);
}

#[test]
fn SLTIU_test() {
    let fakeData: Vec<u8> = vec![0; 10];
    let mut cpu = Cpu::new(fakeData);
    let mut inst = RegImmInst { rs1: 1, rd: 1, instName: Instruction::SLTIU, imm: 1 };
    let mut instFmt = InstructionFormat::I(inst);
    let _ = cpu.execute(instFmt);

    assert_eq!(cpu.regs[1], 1);

    inst.imm = -1;
    instFmt = InstructionFormat::I(inst);
    let _ = cpu.execute(instFmt);
    assert_eq!(cpu.regs[1], 1);
}

#[test]
fn SLTU_test() {
    let fakeData: Vec<u8> = vec![0; 10];
    let mut cpu = Cpu::new(fakeData);
    let inst = RegRegInst { rs1: 1, rd: 1, instName: Instruction::SLTU, rs2: 2 };
    cpu.regs[1] = 0;
    cpu.regs[2] = u64::MAX;
    let mut instFmt = InstructionFormat::R(inst);
    let _ = cpu.execute(instFmt);

    assert_eq!(cpu.regs[1], 1);

    cpu.regs[1] = 1;
    cpu.regs[2] = 2;
    instFmt = InstructionFormat::R(inst);
    let _ = cpu.execute(instFmt);
    assert_eq!(cpu.regs[1], 1);
}

#[test]
#[allow(overflowing_literals)]
fn ANDI_test() {
    let fakeData: Vec<u8> = vec![0; 10];
    let mut cpu = Cpu::new(fakeData);
    let mut inst = RegImmInst { rs1: 1, rd: 1, instName: Instruction::ANDI, imm: 1 };
    let mut instFmt = InstructionFormat::I(inst);
    let _ = cpu.execute(instFmt);

    assert_eq!(cpu.regs[1], 0);

    inst.imm = 0b1111101010101010;
    cpu.regs[1] = 0xffff;

    instFmt = InstructionFormat::I(inst);
    let _ = cpu.execute(instFmt);
    assert_eq!(cpu.regs[1], 0b1111101010101010);
}

#[test]
fn AND_test() {
    let fakeData: Vec<u8> = vec![0; 10];
    let mut cpu = Cpu::new(fakeData);
    let inst = RegRegInst { rs1: 1, rd: 1, instName: Instruction::AND, rs2: 2 };
    cpu.regs[1] = 1;
    cpu.regs[2] = 0;
    let mut instFmt = InstructionFormat::R(inst);
    let _ = cpu.execute(instFmt);

    assert_eq!(cpu.regs[1], 0);

    cpu.regs[2] = 0b1111101010101010;
    cpu.regs[1] = 0xffff;

    instFmt = InstructionFormat::R(inst);
    let _ = cpu.execute(instFmt);
    assert_eq!(cpu.regs[1], 0b1111101010101010);
}

#[test]
fn ORI_test() {
    let fakeData: Vec<u8> = vec![0; 10];
    let mut cpu = Cpu::new(fakeData);
    let mut inst = RegImmInst { rs1: 1, rd: 1, instName: Instruction::ORI, imm: 1 };
    let mut instFmt = InstructionFormat::I(inst);
    let _ = cpu.execute(instFmt);

    assert_eq!(cpu.regs[1], 1);

    inst.imm = 0b0000111100001111;
    cpu.regs[1] = 0b0000111111111111;

    instFmt = InstructionFormat::I(inst);
    let _ = cpu.execute(instFmt);
    assert_eq!(cpu.regs[1], 0b0000111111111111);
}

#[test]
fn OR_test() {
    let fakeData: Vec<u8> = vec![0; 10];
    let mut cpu = Cpu::new(fakeData);
    let inst = RegRegInst { rs1: 1, rd: 1, instName: Instruction::OR, rs2: 2 };
    cpu.regs[1] = 0;
    cpu.regs[2] = 1;
    let mut instFmt = InstructionFormat::R(inst);
    let _ = cpu.execute(instFmt);

    assert_eq!(cpu.regs[1], 1);

    cpu.regs[2] = 0b0000111100001111;
    cpu.regs[1] = 0b0000111111111111;

    instFmt = InstructionFormat::R(inst);
    let _ = cpu.execute(instFmt);
    assert_eq!(cpu.regs[1], 0b0000111111111111);
}

#[test]
fn XORI_test() {
    let fakeData: Vec<u8> = vec![0; 10];
    let mut cpu = Cpu::new(fakeData);
    let mut inst = RegImmInst { rs1: 1, rd: 1, instName: Instruction::XORI, imm: 1 };
    let mut instFmt = InstructionFormat::I(inst);
    let _ = cpu.execute(instFmt);

    assert_eq!(cpu.regs[1], 1);

    inst.imm = 0b0000111100001111;
    cpu.regs[1] = 0b0000111111110000;

    instFmt = InstructionFormat::I(inst);
    let _ = cpu.execute(instFmt);
    assert_eq!(cpu.regs[1], 0b0000000011111111);
}

#[test]
fn XOR_test() {
    let fakeData: Vec<u8> = vec![0; 10];
    let mut cpu = Cpu::new(fakeData);
    let inst = RegRegInst { rs1: 1, rd: 1, instName: Instruction::XOR, rs2: 2 };
    cpu.regs[1] = 1;
    cpu.regs[2] = 0;
    let mut instFmt = InstructionFormat::R(inst);
    let _ = cpu.execute(instFmt);

    assert_eq!(cpu.regs[1], 1);

    cpu.regs[2] = 0b0000111100001111;
    cpu.regs[1] = 0b0000111111110000;

    instFmt = InstructionFormat::R(inst);
    let _ = cpu.execute(instFmt);
    assert_eq!(cpu.regs[1], 0b0000000011111111);
}

#[test]
fn SLL_test() {
    let fakeData: Vec<u8> = vec![0; 10];
    let mut cpu = Cpu::new(fakeData);
    let inst = RegRegInst { rs1: 1, rd: 1, instName: Instruction::SLL, rs2: 2 };
    let mut instFmt = InstructionFormat::R(inst);
    cpu.regs[1] = 2;
    cpu.regs[2] = 1;
    let _ = cpu.execute(instFmt);

    assert_eq!(cpu.regs[1], 4);

    cpu.regs[1] = 7;
    instFmt = InstructionFormat::R(inst);
    let _ = cpu.execute(instFmt);
    assert_eq!(cpu.regs[1], 14);

    cpu.regs[1] = 0xffff;

    instFmt = InstructionFormat::R(inst);
    let _ = cpu.execute(instFmt);
    assert_eq!(cpu.regs[1], 0x1fffe);
}

#[test]
fn SLLI_test() {
    let fakeData: Vec<u8> = vec![0; 10];
    let mut cpu = Cpu::new(fakeData);
    let inst = RegImmInst { rs1: 1, rd: 1, instName: Instruction::SLLI, imm: 1 };
    let mut instFmt = InstructionFormat::I(inst);
    cpu.regs[1] = 2;
    let _ = cpu.execute(instFmt);

    assert_eq!(cpu.regs[1], 4);

    cpu.regs[1] = 7;
    instFmt = InstructionFormat::I(inst);
    let _ = cpu.execute(instFmt);
    assert_eq!(cpu.regs[1], 14);

    cpu.regs[1] = 0xffff;

    instFmt = InstructionFormat::I(inst);
    let _ = cpu.execute(instFmt);
    assert_eq!(cpu.regs[1], 0x1fffe);
}

#[test]
fn SLLIW_test() {
    let fakeData: Vec<u8> = vec![0; 10];
    let mut cpu = Cpu::new(fakeData);
    let inst = RegImmInst { rs1: 1, rd: 1, instName: Instruction::SLLIW, imm: 1 };
    let mut instFmt = InstructionFormat::I(inst);
    cpu.regs[1] = 2;
    let _ = cpu.execute(instFmt);

    assert_eq!(cpu.regs[1], 4);

    cpu.regs[1] = 7;
    instFmt = InstructionFormat::I(inst);
    let _ = cpu.execute(instFmt);
    assert_eq!(cpu.regs[1], 14);

    cpu.regs[1] = 0xffffffffffff;

    instFmt = InstructionFormat::I(inst);
    let _ = cpu.execute(instFmt);
    assert_eq!(cpu.regs[1], 0xfffffffffffffffe);
}

#[test]
fn SLLW_test() {
    let fakeData: Vec<u8> = vec![0; 10];
    let mut cpu = Cpu::new(fakeData);
    let inst = RegRegInst { rs1: 1, rd: 1, instName: Instruction::SLLW, rs2: 2 };
    let mut instFmt = InstructionFormat::R(inst);
    cpu.regs[1] = 2;
    cpu.regs[2] = 1;
    let _ = cpu.execute(instFmt);

    assert_eq!(cpu.regs[1], 4);

    cpu.regs[1] = 7;
    instFmt = InstructionFormat::R(inst);
    let _ = cpu.execute(instFmt);
    assert_eq!(cpu.regs[1], 14);

    cpu.regs[1] = 0xffffffff;

    instFmt = InstructionFormat::R(inst);
    let _ = cpu.execute(instFmt);
    assert_eq!(cpu.regs[1], 0xfffffffffffffffe);
}

#[test]
fn SRL_test() {
    let fakeData: Vec<u8> = vec![0; 10];
    let mut cpu = Cpu::new(fakeData);
    let inst = RegRegInst { rs1: 1, rd: 1, instName: Instruction::SRL, rs2: 2 };
    let mut instFmt = InstructionFormat::R(inst);
    cpu.regs[1] = 2;
    cpu.regs[2] = 1;
    let _ = cpu.execute(instFmt);

    assert_eq!(cpu.regs[1], 1);

    cpu.regs[1] = 7;
    instFmt = InstructionFormat::R(inst);
    let _ = cpu.execute(instFmt);
    assert_eq!(cpu.regs[1], 3);

    cpu.regs[1] = 0xffff;

    instFmt = InstructionFormat::R(inst);
    let _ = cpu.execute(instFmt);
    assert_eq!(cpu.regs[1], 0x7fff);
}

#[test]
fn SRLI_test() {
    let fakeData: Vec<u8> = vec![0; 10];
    let mut cpu = Cpu::new(fakeData);
    let inst = RegImmInst { rs1: 1, rd: 1, instName: Instruction::SRLI, imm: 1 };
    let mut instFmt = InstructionFormat::I(inst);
    cpu.regs[1] = 2;
    let _ = cpu.execute(instFmt);

    assert_eq!(cpu.regs[1], 1);

    cpu.regs[1] = 7;
    instFmt = InstructionFormat::I(inst);
    let _ = cpu.execute(instFmt);
    assert_eq!(cpu.regs[1], 3);

    cpu.regs[1] = 0xffff;

    instFmt = InstructionFormat::I(inst);
    let _ = cpu.execute(instFmt);
    assert_eq!(cpu.regs[1], 0x7fff);
}

#[test]
fn SRLIW_test() {
    let fakeData: Vec<u8> = vec![0; 10];
    let mut cpu = Cpu::new(fakeData);
    let inst = RegImmInst { rs1: 1, rd: 1, instName: Instruction::SRLIW, imm: 1 };
    let mut instFmt = InstructionFormat::I(inst);
    cpu.regs[1] = 2;
    let _ = cpu.execute(instFmt);

    assert_eq!(cpu.regs[1], 1);

    cpu.regs[1] = 7;
    instFmt = InstructionFormat::I(inst);
    let _ = cpu.execute(instFmt);
    assert_eq!(cpu.regs[1], 3);

    cpu.regs[1] = 0xffff;

    instFmt = InstructionFormat::I(inst);
    let _ = cpu.execute(instFmt);
    assert_eq!(cpu.regs[1], 0x7fff);
}

#[test]
fn SRLW_test() {
    let fakeData: Vec<u8> = vec![0; 10];
    let mut cpu = Cpu::new(fakeData);
    let inst = RegRegInst { rs1: 1, rd: 1, instName: Instruction::SRLW, rs2: 2 };
    let mut instFmt = InstructionFormat::R(inst);
    cpu.regs[1] = 2;
    cpu.regs[2] = 1;
    let _ = cpu.execute(instFmt);

    assert_eq!(cpu.regs[1], 1);

    cpu.regs[1] = 7;
    instFmt = InstructionFormat::R(inst);
    let _ = cpu.execute(instFmt);
    assert_eq!(cpu.regs[1], 3);

    cpu.regs[1] = 0xffff;

    instFmt = InstructionFormat::R(inst);
    let _ = cpu.execute(instFmt);
    assert_eq!(cpu.regs[1], 0x7fff);
}

#[test]
fn SRA_test() {
    let fakeData: Vec<u8> = vec![0; 10];
    let mut cpu = Cpu::new(fakeData);
    let inst = RegRegInst { rs1: 1, rd: 1, instName: Instruction::SRA, rs2: 2 };
    let mut instFmt = InstructionFormat::R(inst);
    cpu.regs[1] = 2;
    cpu.regs[2] = 1;
    let _ = cpu.execute(instFmt);

    assert_eq!(cpu.regs[1], 1);

    cpu.regs[1] = 7;
    instFmt = InstructionFormat::R(inst);
    let _ = cpu.execute(instFmt);
    assert_eq!(cpu.regs[1], 3);

    cpu.regs[1] = 0xffffffffffffffff;

    instFmt = InstructionFormat::R(inst);
    let _ = cpu.execute(instFmt);
    assert_eq!(cpu.regs[1], 0xffffffffffffffff);
}

#[test]
fn SRAI_test() {
    let fakeData: Vec<u8> = vec![0; 10];
    let mut cpu = Cpu::new(fakeData);
    let inst = RegImmInst { rs1: 1, rd: 1, instName: Instruction::SRAI, imm: 1 };
    let mut instFmt = InstructionFormat::I(inst);
    cpu.regs[1] = 2;
    let _ = cpu.execute(instFmt);

    assert_eq!(cpu.regs[1], 1);

    cpu.regs[1] = 7;
    instFmt = InstructionFormat::I(inst);
    let _ = cpu.execute(instFmt);
    assert_eq!(cpu.regs[1], 3);

    cpu.regs[1] = 0xffffffffffffffff;

    instFmt = InstructionFormat::I(inst);
    let _ = cpu.execute(instFmt);
    assert_eq!(cpu.regs[1], 0xffffffffffffffff);
}

#[test]
#[allow(overflowing_literals)]
fn SRAIW_test() {
    let fakeData: Vec<u8> = vec![0; 10];
    let mut cpu = Cpu::new(fakeData);
    let inst = RegImmInst { rs1: 1, rd: 1, instName: Instruction::SRAIW, imm: 1 };
    let mut instFmt = InstructionFormat::I(inst);
    cpu.regs[1] = 2;
    let _ = cpu.execute(instFmt);

    assert_eq!(cpu.regs[1], 1);

    cpu.regs[1] = 7;
    instFmt = InstructionFormat::I(inst);
    let _ = cpu.execute(instFmt);
    assert_eq!(cpu.regs[1], 3);

    cpu.regs[1] = 0xfffffffe;

    instFmt = InstructionFormat::I(inst);
    let _ = cpu.execute(instFmt);
    assert_eq!(cpu.regs[1], 0xffffffffffffffff);
}

#[test]
#[allow(overflowing_literals)]
fn SRAW_test() {
    let fakeData: Vec<u8> = vec![0; 10];
    let mut cpu = Cpu::new(fakeData);
    let inst = RegRegInst { rs1: 1, rd: 1, instName: Instruction::SRAW, rs2: 2 };
    let mut instFmt = InstructionFormat::R(inst);
    cpu.regs[1] = 2;
    cpu.regs[2] = 1;
    let _ = cpu.execute(instFmt);

    assert_eq!(cpu.regs[1], 1);

    cpu.regs[1] = 7;
    instFmt = InstructionFormat::R(inst);
    let _ = cpu.execute(instFmt);
    assert_eq!(cpu.regs[1], 3);

    cpu.regs[1] = 0xfffffffe;

    instFmt = InstructionFormat::R(inst);
    let _ = cpu.execute(instFmt);
    assert_eq!(cpu.regs[1], 0xffffffffffffffff);
}
