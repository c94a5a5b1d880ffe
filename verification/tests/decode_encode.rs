use riscv_emu::cpu::Cpu;
use riscv_emu::regs::BranchInst;
use riscv_emu::regs::Instruction;
use riscv_emu::regs::InstructionFormat;
use riscv_emu::regs::JumpInst;
use riscv_emu::regs::R3Inst;
use riscv_emu::regs::RegImmInst;
use riscv_emu::regs::RegRegInst;
use riscv_emu::regs::StoreInst;
use riscv_emu::regs::UpperImmInst;

#[test]
fn decode_add() {
    // add a2, a0, a1
    let decoded = Cpu::decode(0x00b50633).unwrap();
    assert_eq!(
        decoded,
        InstructionFormat::R(RegRegInst { rd: 12, rs1: 10, rs2: 11, instName: Instruction::ADD })
    );
}

#[test]
fn decode_addi() {
    // addi a0, a0, 1
    let decoded = Cpu::decode(0x00150513).unwrap();
    assert_eq!(
        decoded,
        InstructionFormat::I(RegImmInst { rd: 10, rs1: 10, imm: 1, instName: Instruction::ADDI })
    );
}

#[test]
fn decode_addi_negative() {
    // addi a0, a0, -1
    let decoded = Cpu::decode(0xfff50513).unwrap();
    assert_eq!(
        decoded,
        InstructionFormat::I(RegImmInst { rd: 10, rs1: 10, imm: -1, instName: Instruction::ADDI })
    );
}

#[test]
fn decode_beq() {
    // beq x1, x2, +8 (the offset is stored pre-halved)
    let decoded = Cpu::decode(0x00208463).unwrap();
    assert_eq!(
        decoded,
        InstructionFormat::B(BranchInst { rs1: 1, rs2: 2, imm: 4, instName: Instruction::BEQ })
    );
}

#[test]
fn decode_jal() {
    // jal x1, +8
    let decoded = Cpu::decode(0x008000ef).unwrap();
    assert_eq!(
        decoded,
        InstructionFormat::J(JumpInst { rd: 1, imm: 4, instName: Instruction::JAL })
    );
}

#[test]
fn decode_lui() {
    // lui x5, 1
    let decoded = Cpu::decode(0x000012b7).unwrap();
    assert_eq!(
        decoded,
        InstructionFormat::U(UpperImmInst { rd: 5, imm: 1, instName: Instruction::LUI })
    );
}

#[test]
fn decode_sd() {
    // sd x2, 16(x3)
    let sd = StoreInst { rs1: 3, rs2: 2, imm: 16, instName: Instruction::SD };
    let word = InstructionFormat::S(sd).encode();
    assert_eq!(Cpu::decode(word).unwrap(), InstructionFormat::S(sd));
}

#[test]
fn decode_rejects_unknown_opcode() {
    let e = Cpu::decode(0).unwrap_err();
    assert_eq!(e.word, 0);
    assert!(Cpu::decode(0xffffffff).is_err());
}

#[test]
fn decode_rejects_unknown_funct() {
    // Opcode 0x33 with funct7 = 2 names nothing.
    let word: u32 = (2 << 25) | 0x33;
    assert!(Cpu::decode(word).is_err());
    // Opcode 0x63 with funct3 = 2 names no branch.
    let word: u32 = (2 << 12) | 0x63;
    assert!(Cpu::decode(word).is_err());
}

#[test]
fn round_trip_register_register() {
    let cases = [
        RegRegInst { rd: 1, rs1: 2, rs2: 3, instName: Instruction::ADD },
        RegRegInst { rd: 31, rs1: 30, rs2: 29, instName: Instruction::SUB },
        RegRegInst { rd: 4, rs1: 5, rs2: 6, instName: Instruction::SRAW },
        RegRegInst { rd: 7, rs1: 8, rs2: 9, instName: Instruction::MULHSU },
        RegRegInst { rd: 10, rs1: 11, rs2: 12, instName: Instruction::REMUW },
        RegRegInst { rd: 13, rs1: 14, rs2: 15, instName: Instruction::AMOMAXUW },
        RegRegInst { rd: 16, rs1: 17, rs2: 18, instName: Instruction::AMOSWAPD },
        RegRegInst { rd: 19, rs1: 20, rs2: 0, instName: Instruction::LRD },
        RegRegInst { rd: 0, rs1: 21, rs2: 22, instName: Instruction::SCW },
    ];
    for inst in cases {
        let word = InstructionFormat::R(inst).encode();
        assert_eq!(Cpu::decode(word).unwrap(), InstructionFormat::R(inst));
    }
}

#[test]
fn round_trip_register_immediate() {
    let cases = [
        RegImmInst { rd: 1, rs1: 2, imm: 2047, instName: Instruction::ADDI },
        RegImmInst { rd: 3, rs1: 4, imm: -2048, instName: Instruction::ADDI },
        RegImmInst { rd: 5, rs1: 6, imm: -1, instName: Instruction::ANDI },
        RegImmInst { rd: 7, rs1: 8, imm: 63, instName: Instruction::SLLI },
        RegImmInst { rd: 9, rs1: 10, imm: 63, instName: Instruction::SRAI },
        RegImmInst { rd: 11, rs1: 12, imm: 0, instName: Instruction::SRLI },
        RegImmInst { rd: 13, rs1: 14, imm: 31, instName: Instruction::SRAIW },
        RegImmInst { rd: 15, rs1: 16, imm: 31, instName: Instruction::SLLIW },
        RegImmInst { rd: 17, rs1: 18, imm: -5, instName: Instruction::LB },
        RegImmInst { rd: 19, rs1: 20, imm: 100, instName: Instruction::JALR },
        RegImmInst { rd: 21, rs1: 22, imm: 4095, instName: Instruction::CSRRS },
        RegImmInst { rd: 23, rs1: 9, imm: 0, instName: Instruction::CSRRWI },
    ];
    for inst in cases {
        let word = InstructionFormat::I(inst).encode();
        assert_eq!(Cpu::decode(word).unwrap(), InstructionFormat::I(inst));
    }
}

#[test]
fn round_trip_store_branch_jump_upper() {
    let stores = [
        StoreInst { rs1: 1, rs2: 2, imm: -2048, instName: Instruction::SB },
        StoreInst { rs1: 3, rs2: 4, imm: 2047, instName: Instruction::SH },
        StoreInst { rs1: 5, rs2: 6, imm: -1, instName: Instruction::SW },
        StoreInst { rs1: 7, rs2: 8, imm: 0, instName: Instruction::SD },
    ];
    for inst in stores {
        let word = InstructionFormat::S(inst).encode();
        assert_eq!(Cpu::decode(word).unwrap(), InstructionFormat::S(inst));
    }

    let branches = [
        BranchInst { rs1: 1, rs2: 2, imm: -2048, instName: Instruction::BEQ },
        BranchInst { rs1: 3, rs2: 4, imm: 2047, instName: Instruction::BNE },
        BranchInst { rs1: 5, rs2: 6, imm: -1, instName: Instruction::BLT },
        BranchInst { rs1: 7, rs2: 8, imm: 1, instName: Instruction::BGE },
        BranchInst { rs1: 9, rs2: 10, imm: 0, instName: Instruction::BLTU },
        BranchInst { rs1: 11, rs2: 12, imm: 100, instName: Instruction::BGEU },
    ];
    for inst in branches {
        let word = InstructionFormat::B(inst).encode();
        assert_eq!(Cpu::decode(word).unwrap(), InstructionFormat::B(inst));
    }

    let jumps = [
        JumpInst { rd: 1, imm: -524288, instName: Instruction::JAL },
        JumpInst { rd: 2, imm: 524287, instName: Instruction::JAL },
        JumpInst { rd: 3, imm: -1, instName: Instruction::JAL },
        JumpInst { rd: 0, imm: 0, instName: Instruction::JAL },
    ];
    for inst in jumps {
        let word = InstructionFormat::J(inst).encode();
        assert_eq!(Cpu::decode(word).unwrap(), InstructionFormat::J(inst));
    }

    let uppers = [
        UpperImmInst { rd: 1, imm: -524288, instName: Instruction::LUI },
        UpperImmInst { rd: 2, imm: 524287, instName: Instruction::AUIPC },
        UpperImmInst { rd: 3, imm: -1, instName: Instruction::LUI },
    ];
    for inst in uppers {
        let word = InstructionFormat::U(inst).encode();
        assert_eq!(Cpu::decode(word).unwrap(), InstructionFormat::U(inst));
    }
}

#[test]
fn round_trip_fused() {
    let cases = [
        R3Inst { rd: 1, rs1: 2, rs2: 3, rs3: 4, instName: Instruction::FMADDS },
        R3Inst { rd: 5, rs1: 6, rs2: 7, rs3: 8, instName: Instruction::FMSUBD },
        R3Inst { rd: 9, rs1: 10, rs2: 11, rs3: 12, instName: Instruction::FNMADDS },
        R3Inst { rd: 13, rs1: 14, rs2: 15, rs3: 16, instName: Instruction::FNMSUBD },
    ];
    for inst in cases {
        let word = InstructionFormat::R4(inst).encode();
        assert_eq!(Cpu::decode(word).unwrap(), InstructionFormat::R4(inst));
    }
}

#[test]
fn fence_words_decode_to_fence() {
    // Both fence encodings resolve to the plain fence in a single-context
    // engine.
    let fence = RegImmInst { rd: 0, rs1: 0, imm: 0, instName: Instruction::FENCE };
    let word = InstructionFormat::I(fence).encode();
    assert_eq!(Cpu::decode(word).unwrap(), InstructionFormat::I(fence));
}
