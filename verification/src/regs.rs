//! Instruction formats of the RV64 instruction set and their decoders.
//!
//! Each format struct carries the operand fields of one encoding layout
//! (register indices are 5 bits wide, immediates are reassembled and
//! sign-extended exactly as the architecture lays them out in the word).
//! The `New` constructor of each format decodes one 32-bit word and reports
//! an unrecognized opcode or funct combination as a `DecodeError`.

use vstd::prelude::*;

verus! {

/// Every operation identifier the engine knows, across all formats.
#[derive(Debug, Copy, Clone, PartialEq, Eq, Structural)]
pub enum Instruction {
    JAL, // jump instructions
    JALR,
    AUIPC, // upper-immediate instructions
    LUI,
    BEQ, // branch instructions
    BNE,
    BLT,
    BGE,
    BLTU,
    BGEU,
    SB, // store instructions
    SH,
    SW,
    SD, // 64-bit store
    ADD, // register-register instructions
    SUB,
    SLL,
    SLT,
    SLTU,
    XOR,
    SRL,
    SRA,
    OR,
    AND,
    FENCE,
    FENCEI,
    ADDW, // 64-bit word variants
    SUBW,
    SLLW,
    SRLW,
    SRAW,
    ADDI, // immediate instructions
    SLTI,
    SLTIU,
    XORI,
    ORI,
    ANDI,
    SRLI,
    SLLI,
    SRAI,
    ADDIW, // 64-bit word variants of the immediate instructions
    SLLIW,
    SRLIW,
    SRAIW,
    LB, // load instructions
    LH,
    LW,
    LBU,
    LHU,
    LWU, // 64-bit load instructions
    LD,
    MUL, // multiply/divide extension
    MULH,
    MULHSU,
    MULHU,
    DIV,
    DIVU,
    REM,
    REMU,
    MULW,
    DIVW,
    DIVUW,
    REMW,
    REMUW,
    FLW, // single-precision floating-point extension
    FSW,
    FADDS,
    FSUBS,
    FMULS,
    FDIVS,
    FSQRTS,
    FMINS,
    FMAXS,
    FEQS,
    FLTS,
    FLES,
    FNMADDS,
    FNMSUBS,
    FMSUBS,
    FMADDS,
    FCVTSLU,
    FCVTSL,
    FCVTLUS,
    FCVTLS,
    FCVTSWU,
    FCVTSW,
    FCVTWUS,
    FCVTWS,
    FSGNJNS,
    FSGNJS,
    FSGNJXS,
    FMVXW,
    FMVWX,
    FCLASSS,
    FMADDD, // double-precision fused operations (decoded, not executed)
    FMSUBD,
    FNMSUBD,
    FNMADDD,
    CSRRW, // control/status register instructions
    CSRRS,
    CSRRC,
    CSRRWI,
    CSRRSI,
    CSRRCI,
    AMOADDW, // atomic memory operations
    AMOADDD,
    AMOANDW,
    AMOANDD,
    AMOORW,
    AMOORD,
    AMOXORW,
    AMOXORD,
    AMOMAXW,
    AMOMAXD,
    AMOMAXUW,
    AMOMAXUD,
    AMOMINW,
    AMOMIND,
    AMOMINUW,
    AMOMINUD,
    AMOSWAPW,
    AMOSWAPD,
    LRW,
    SCW,
    LRD,
    SCD,
}

/// The opcode or funct combination of this word matches no known instruction.
#[derive(Debug, Copy, Clone, PartialEq, Eq, Structural)]
pub struct DecodeError {
    /// The offending instruction word.
    pub word: u32,
}

/// Register-register format: two source registers and a destination.
/// Layout: `| funct7 | rs2 | rs1 | funct3 | rd | opcode |`.
#[derive(Debug, Copy, Clone, PartialEq, Eq, Structural)]
pub struct RegRegInst {
    /// First source register.
    pub rs1: u8,
    /// Second source register.
    pub rs2: u8,
    /// Destination register.
    pub rd: u8,
    /// Which register-register instruction this is.
    pub instName: Instruction,
}

/// Three-source-register format for the fused multiply-add family.
/// Layout: `| rs3 | funct2 | rs2 | rs1 | funct3 | rd | opcode |`.
#[derive(Debug, Copy, Clone, PartialEq, Eq, Structural)]
pub struct R3Inst {
    /// First source register.
    pub rs1: u8,
    /// Second source register.
    pub rs2: u8,
    /// Third source register.
    pub rs3: u8,
    /// Destination register.
    pub rd: u8,
    /// Which fused instruction this is.
    pub instName: Instruction,
}

/// Register-immediate format: one source register and a signed 12-bit
/// immediate. Layout: `| imm[11:0] | rs1 | funct3 | rd | opcode |`.
#[derive(Debug, Copy, Clone, PartialEq, Eq, Structural)]
pub struct RegImmInst {
    /// Source register.
    pub rs1: u8,
    /// Destination register.
    pub rd: u8,
    /// Which immediate instruction this is.
    pub instName: Instruction,
    /// The immediate: sign-extended, except for shift instructions, where it
    /// is masked down to the shift amount, and for control/status register
    /// instructions, where it is the zero-extended 12-bit register index.
    pub imm: i16,
}

/// Store format: a base register, a source register and a signed immediate.
/// Layout: `| imm[11:5] | rs2 | rs1 | funct3 | imm[4:0] | opcode |`.
#[derive(Debug, Copy, Clone, PartialEq, Eq, Structural)]
pub struct StoreInst {
    /// Base address register.
    pub rs1: u8,
    /// Register holding the value to store.
    pub rs2: u8,
    /// Which store instruction this is.
    pub instName: Instruction,
    /// The immediate offset, reassembled from its two fields and sign-extended.
    pub imm: i16,
}

/// Branch format: two source registers to compare and a scrambled immediate.
/// Layout: `| imm[12|10:5] | rs2 | rs1 | funct3 | imm[4:1|11] | opcode |`.
#[derive(Debug, Copy, Clone, PartialEq, Eq, Structural)]
pub struct BranchInst {
    /// First source register.
    pub rs1: u8,
    /// Second source register.
    pub rs2: u8,
    /// The branch offset divided by two: the architecture stores it
    /// pre-halved, so the engine shifts it left by one before use.
    pub imm: i16,
    /// Which branch instruction this is.
    pub instName: Instruction,
}

/// Upper-immediate format: a 20-bit immediate and a destination register.
/// Layout: `| imm[31:12] | rd | opcode |`.
#[derive(Debug, Copy, Clone, PartialEq, Eq, Structural)]
pub struct UpperImmInst {
    /// Destination register.
    pub rd: u8,
    /// The immediate value: bits [31:12] of the word, sign-extended.
    pub imm: i32,
    /// Which upper-immediate instruction this is.
    pub instName: Instruction,
}

/// Jump format: a destination register and a scrambled 20-bit immediate.
/// Layout: `| imm[20|10:1|11|19:12] | rd | opcode |`.
#[derive(Debug, Copy, Clone, PartialEq, Eq, Structural)]
pub struct JumpInst {
    /// Destination register; receives the return address.
    pub rd: u8,
    /// The jump offset divided by two, sign-extended.
    pub imm: i32,
    /// Which jump instruction this is.
    pub instName: Instruction,
}

/// One decoded instruction: a tagged union over the format variants.
#[derive(Debug, Copy, Clone, PartialEq, Eq, Structural)]
pub enum InstructionFormat {
    R(RegRegInst),
    R4(R3Inst),
    I(RegImmInst),
    S(StoreInst),
    B(BranchInst),
    U(UpperImmInst),
    J(JumpInst),
}

/// Proves that a 5-bit mask keeps a byte below 32, so that masked register
/// fields always index the 32-entry register files.
proof fn lemma_mask5(x: u8)
    ensures
        x & 0x1f < 32,
{
    assert(x & 0x1f < 32) by (bit_vector);
}

impl UpperImmInst {
    /// The register fields fit the 32-entry register file.
    pub open spec fn wf(&self) -> bool {
        self.rd < 32
    }

    /// What decoding an upper-immediate word yields.
    pub open spec fn spec_new(code: u32) -> Result<UpperImmInst, DecodeError> {
        let opcode = code & 0x7f;
        if opcode == 55 || opcode == 23 {
            Ok(UpperImmInst {
                instName: if opcode == 55 {
                    Instruction::LUI
                } else {
                    Instruction::AUIPC
                },
                rd: ((code >> 7) as u8) & 0x1f,
                imm: (code as i32) >> 12,
            })
        } else {
            Err(DecodeError { word: code })
        }
    }

    /// Decodes an upper-immediate (`LUI`/`AUIPC`) word.
    pub fn New(code: u32) -> (r: Result<UpperImmInst, DecodeError>)
        ensures
            r == Self::spec_new(code),
            r matches Ok(i) ==> i.wf(),
    {
        proof {
            lemma_mask5((code >> 7) as u8);
        }
        let opcode = code & 0x7f;
        if opcode == 55 || opcode == 23 {
            Ok(UpperImmInst {
                instName: if opcode == 55 {
                    Instruction::LUI
                } else {
                    Instruction::AUIPC
                },
                rd: ((code >> 7) as u8) & 0x1f,
                imm: (code as i32) >> 12,
            })
        } else {
            Err(DecodeError { word: code })
        }
    }
}

impl RegRegInst {
    /// The register fields fit the 32-entry register file.
    pub open spec fn wf(&self) -> bool {
        self.rs1 < 32 && self.rs2 < 32 && self.rd < 32
    }

    /// What decoding a register-register word yields: the base integer set
    /// and the multiply/divide extension under opcode 0x33, their word
    /// variants under 0x3B, and the atomic operations under 0x2F (whose top
    /// five funct bits select the operation once the acquire/release bits are
    /// stripped).
    pub open spec fn spec_new(code: u32) -> Result<RegRegInst, DecodeError> {
        let funct3 = (code >> 12) & 0x7;
        let funct7 = (code >> 25) & 0x7f;
        let opcode = code & 0x7f;
        let rd = ((code >> 7) as u8) & 0x1f;
        let rs1 = ((code >> 15) as u8) & 0x1f;
        let rs2 = ((code >> 20) as u8) & 0x1f;
        if opcode == 51 {
            if funct7 == 1 {
                let name = if funct3 == 0 {
                    Instruction::MUL
                } else if funct3 == 1 {
                    Instruction::MULH
                } else if funct3 == 2 {
                    Instruction::MULHSU
                } else if funct3 == 3 {
                    Instruction::MULHU
                } else if funct3 == 4 {
                    Instruction::DIV
                } else if funct3 == 5 {
                    Instruction::DIVU
                } else if funct3 == 6 {
                    Instruction::REM
                } else {
                    Instruction::REMU
                };
                Ok(RegRegInst { rd: rd, rs1: rs1, rs2: rs2, instName: name })
            } else {
                let name = if funct7 == 0 && funct3 == 0 {
                    Ok(Instruction::ADD)
                } else if funct7 == 32 && funct3 == 0 {
                    Ok(Instruction::SUB)
                } else if funct7 == 0 && funct3 == 1 {
                    Ok(Instruction::SLL)
                } else if funct7 == 0 && funct3 == 2 {
                    Ok(Instruction::SLT)
                } else if funct7 == 0 && funct3 == 3 {
                    Ok(Instruction::SLTU)
                } else if funct7 == 0 && funct3 == 4 {
                    Ok(Instruction::XOR)
                } else if funct7 == 0 && funct3 == 5 {
                    Ok(Instruction::SRL)
                } else if funct7 == 32 && funct3 == 5 {
                    Ok(Instruction::SRA)
                } else if funct7 == 0 && funct3 == 6 {
                    Ok(Instruction::OR)
                } else if funct7 == 0 && funct3 == 7 {
                    Ok(Instruction::AND)
                } else {
                    Err(DecodeError { word: code })
                };
                match name {
                    Ok(n) => Ok(RegRegInst { rd: rd, rs1: rs1, rs2: rs2, instName: n }),
                    Err(e) => Err(e),
                }
            }
        } else if opcode == 59 {
            if funct7 == 1 {
                let name = if funct3 == 0 {
                    Ok(Instruction::MULW)
                } else if funct3 == 4 {
                    Ok(Instruction::DIVW)
                } else if funct3 == 5 {
                    Ok(Instruction::DIVUW)
                } else if funct3 == 6 {
                    Ok(Instruction::REMW)
                } else if funct3 == 7 {
                    Ok(Instruction::REMUW)
                } else {
                    Err(DecodeError { word: code })
                };
                match name {
                    Ok(n) => Ok(RegRegInst { rd: rd, rs1: rs1, rs2: rs2, instName: n }),
                    Err(e) => Err(e),
                }
            } else {
                let name = if funct7 == 0 && funct3 == 0 {
                    Ok(Instruction::ADDW)
                } else if funct7 == 32 && funct3 == 0 {
                    Ok(Instruction::SUBW)
                } else if funct7 == 0 && funct3 == 1 {
                    Ok(Instruction::SLLW)
                } else if funct7 == 32 && funct3 == 5 {
                    Ok(Instruction::SRAW)
                } else if funct7 == 0 && funct3 == 5 {
                    Ok(Instruction::SRLW)
                } else {
                    Err(DecodeError { word: code })
                };
                match name {
                    Ok(n) => Ok(RegRegInst { rd: rd, rs1: rs1, rs2: rs2, instName: n }),
                    Err(e) => Err(e),
                }
            }
        } else if opcode == 47 {
            let funct5 = funct7 >> 2;
            let name = if funct3 == 2 {
                if funct5 == 0 {
                    Ok(Instruction::AMOADDW)
                } else if funct5 == 1 {
                    Ok(Instruction::AMOSWAPW)
                } else if funct5 == 2 {
                    Ok(Instruction::LRW)
                } else if funct5 == 3 {
                    Ok(Instruction::SCW)
                } else if funct5 == 4 {
                    Ok(Instruction::AMOXORW)
                } else if funct5 == 8 {
                    Ok(Instruction::AMOORW)
                } else if funct5 == 12 {
                    Ok(Instruction::AMOANDW)
                } else if funct5 == 16 {
                    Ok(Instruction::AMOMINW)
                } else if funct5 == 20 {
                    Ok(Instruction::AMOMAXW)
                } else if funct5 == 24 {
                    Ok(Instruction::AMOMINUW)
                } else if funct5 == 28 {
                    Ok(Instruction::AMOMAXUW)
                } else {
                    Err(DecodeError { word: code })
                }
            } else {
                if funct5 == 0 {
                    Ok(Instruction::AMOADDD)
                } else if funct5 == 1 {
                    Ok(Instruction::AMOSWAPD)
                } else if funct5 == 2 {
                    Ok(Instruction::LRD)
                } else if funct5 == 3 {
                    Ok(Instruction::SCD)
                } else if funct5 == 4 {
                    Ok(Instruction::AMOXORD)
                } else if funct5 == 8 {
                    Ok(Instruction::AMOORD)
                } else if funct5 == 12 {
                    Ok(Instruction::AMOANDD)
                } else if funct5 == 16 {
                    Ok(Instruction::AMOMIND)
                } else if funct5 == 20 {
                    Ok(Instruction::AMOMAXD)
                } else if funct5 == 24 {
                    Ok(Instruction::AMOMINUD)
                } else if funct5 == 28 {
                    Ok(Instruction::AMOMAXUD)
                } else {
                    Err(DecodeError { word: code })
                }
            };
            match name {
                Ok(n) => Ok(RegRegInst { rd: rd, rs1: rs1, rs2: rs2, instName: n }),
                Err(e) => Err(e),
            }
        } else {
            Err(DecodeError { word: code })
        }
    }

    /// Decodes a register-register word (integer, multiply/divide or atomic).
    pub fn New(code: u32) -> (r: Result<RegRegInst, DecodeError>)
        ensures
            r == Self::spec_new(code),
            r matches Ok(i) ==> i.wf(),
    {
        proof {
            lemma_mask5((code >> 7) as u8);
            lemma_mask5((code >> 15) as u8);
            lemma_mask5((code >> 20) as u8);
        }
        let funct3 = (code >> 12) & 0x7;
        let funct7 = (code >> 25) & 0x7f;
        let opcode = code & 0x7f;
        let rd = ((code >> 7) as u8) & 0x1f;
        let rs1 = ((code >> 15) as u8) & 0x1f;
        let rs2 = ((code >> 20) as u8) & 0x1f;
        if opcode == 51 {
            if funct7 == 1 {
                let name = if funct3 == 0 {
                    Instruction::MUL
                } else if funct3 == 1 {
                    Instruction::MULH
                } else if funct3 == 2 {
                    Instruction::MULHSU
                } else if funct3 == 3 {
                    Instruction::MULHU
                } else if funct3 == 4 {
                    Instruction::DIV
                } else if funct3 == 5 {
                    Instruction::DIVU
                } else if funct3 == 6 {
                    Instruction::REM
                } else {
                    Instruction::REMU
                };
                Ok(RegRegInst { rd: rd, rs1: rs1, rs2: rs2, instName: name })
            } else {
                let name = if funct7 == 0 && funct3 == 0 {
                    Ok(Instruction::ADD)
                } else if funct7 == 32 && funct3 == 0 {
                    Ok(Instruction::SUB)
                } else if funct7 == 0 && funct3 == 1 {
                    Ok(Instruction::SLL)
                } else if funct7 == 0 && funct3 == 2 {
                    Ok(Instruction::SLT)
                } else if funct7 == 0 && funct3 == 3 {
                    Ok(Instruction::SLTU)
                } else if funct7 == 0 && funct3 == 4 {
                    Ok(Instruction::XOR)
                } else if funct7 == 0 && funct3 == 5 {
                    Ok(Instruction::SRL)
                } else if funct7 == 32 && funct3 == 5 {
                    Ok(Instruction::SRA)
                } else if funct7 == 0 && funct3 == 6 {
                    Ok(Instruction::OR)
                } else if funct7 == 0 && funct3 == 7 {
                    Ok(Instruction::AND)
                } else {
                    Err(DecodeError { word: code })
                };
                match name {
                    Ok(n) => Ok(RegRegInst { rd: rd, rs1: rs1, rs2: rs2, instName: n }),
                    Err(e) => Err(e),
                }
            }
        } else if opcode == 59 {
            if funct7 == 1 {
                let name = if funct3 == 0 {
                    Ok(Instruction::MULW)
                } else if funct3 == 4 {
                    Ok(Instruction::DIVW)
                } else if funct3 == 5 {
                    Ok(Instruction::DIVUW)
                } else if funct3 == 6 {
                    Ok(Instruction::REMW)
                } else if funct3 == 7 {
                    Ok(Instruction::REMUW)
                } else {
                    Err(DecodeError { word: code })
                };
                match name {
                    Ok(n) => Ok(RegRegInst { rd: rd, rs1: rs1, rs2: rs2, instName: n }),
                    Err(e) => Err(e),
                }
            } else {
                let name = if funct7 == 0 && funct3 == 0 {
                    Ok(Instruction::ADDW)
                } else if funct7 == 32 && funct3 == 0 {
                    Ok(Instruction::SUBW)
                } else if funct7 == 0 && funct3 == 1 {
                    Ok(Instruction::SLLW)
                } else if funct7 == 32 && funct3 == 5 {
                    Ok(Instruction::SRAW)
                } else if funct7 == 0 && funct3 == 5 {
                    Ok(Instruction::SRLW)
                } else {
                    Err(DecodeError { word: code })
                };
                match name {
                    Ok(n) => Ok(RegRegInst { rd: rd, rs1: rs1, rs2: rs2, instName: n }),
                    Err(e) => Err(e),
                }
            }
        } else if opcode == 47 {
            // The two lowest funct7 bits are the acquire/release ordering
            // hints; the operation itself sits in the five bits above them.
            let funct5 = funct7 >> 2;
            let name = if funct3 == 2 {
                if funct5 == 0 {
                    Ok(Instruction::AMOADDW)
                } else if funct5 == 1 {
                    Ok(Instruction::AMOSWAPW)
                } else if funct5 == 2 {
                    Ok(Instruction::LRW)
                } else if funct5 == 3 {
                    Ok(Instruction::SCW)
                } else if funct5 == 4 {
                    Ok(Instruction::AMOXORW)
                } else if funct5 == 8 {
                    Ok(Instruction::AMOORW)
                } else if funct5 == 12 {
                    Ok(Instruction::AMOANDW)
                } else if funct5 == 16 {
                    Ok(Instruction::AMOMINW)
                } else if funct5 == 20 {
                    Ok(Instruction::AMOMAXW)
                } else if funct5 == 24 {
                    Ok(Instruction::AMOMINUW)
                } else if funct5 == 28 {
                    Ok(Instruction::AMOMAXUW)
                } else {
                    Err(DecodeError { word: code })
                }
            } else {
                if funct5 == 0 {
                    Ok(Instruction::AMOADDD)
                } else if funct5 == 1 {
                    Ok(Instruction::AMOSWAPD)
                } else if funct5 == 2 {
                    Ok(Instruction::LRD)
                } else if funct5 == 3 {
                    Ok(Instruction::SCD)
                } else if funct5 == 4 {
                    Ok(Instruction::AMOXORD)
                } else if funct5 == 8 {
                    Ok(Instruction::AMOORD)
                } else if funct5 == 12 {
                    Ok(Instruction::AMOANDD)
                } else if funct5 == 16 {
                    Ok(Instruction::AMOMIND)
                } else if funct5 == 20 {
                    Ok(Instruction::AMOMAXD)
                } else if funct5 == 24 {
                    Ok(Instruction::AMOMINUD)
                } else if funct5 == 28 {
                    Ok(Instruction::AMOMAXUD)
                } else {
                    Err(DecodeError { word: code })
                }
            };
            match name {
                Ok(n) => Ok(RegRegInst { rd: rd, rs1: rs1, rs2: rs2, instName: n }),
                Err(e) => Err(e),
            }
        } else {
            Err(DecodeError { word: code })
        }
    }
}

impl R3Inst {
    /// The register fields fit the 32-entry register file.
    pub open spec fn wf(&self) -> bool {
        self.rs1 < 32 && self.rs2 < 32 && self.rs3 < 32 && self.rd < 32
    }

    /// What decoding a fused multiply-add word yields: the funct2 field
    /// selects single or double precision, the opcode the operation.
    pub open spec fn spec_new(code: u32) -> Result<R3Inst, DecodeError> {
        let opcode = code & 0x7f;
        let funct2 = (code >> 25) & 0x3;
        let name = if funct2 == 0 && opcode == 67 {
            Ok(Instruction::FMADDS)
        } else if funct2 == 1 && opcode == 67 {
            Ok(Instruction::FMADDD)
        } else if funct2 == 0 && opcode == 71 {
            Ok(Instruction::FMSUBS)
        } else if funct2 == 1 && opcode == 71 {
            Ok(Instruction::FMSUBD)
        } else if funct2 == 0 && opcode == 75 {
            Ok(Instruction::FNMSUBS)
        } else if funct2 == 1 && opcode == 75 {
            Ok(Instruction::FNMSUBD)
        } else if funct2 == 0 && opcode == 79 {
            Ok(Instruction::FNMADDS)
        } else if funct2 == 1 && opcode == 79 {
            Ok(Instruction::FNMADDD)
        } else {
            Err(DecodeError { word: code })
        };
        match name {
            Ok(n) => Ok(
                R3Inst {
                    rs1: ((code >> 15) as u8) & 0x1f,
                    rs2: ((code >> 20) as u8) & 0x1f,
                    rs3: ((code >> 27) as u8) & 0x1f,
                    rd: ((code >> 7) as u8) & 0x1f,
                    instName: n,
                },
            ),
            Err(e) => Err(e),
        }
    }

    /// Decodes a fused multiply-add word.
    pub fn New(code: u32) -> (r: Result<R3Inst, DecodeError>)
        ensures
            r == Self::spec_new(code),
            r matches Ok(i) ==> i.wf(),
    {
        proof {
            lemma_mask5((code >> 7) as u8);
            lemma_mask5((code >> 15) as u8);
            lemma_mask5((code >> 20) as u8);
            lemma_mask5((code >> 27) as u8);
        }
        let opcode = code & 0x7f;
        let funct2 = (code >> 25) & 0x3;
        let name = if funct2 == 0 && opcode == 67 {
            Ok(Instruction::FMADDS)
        } else if funct2 == 1 && opcode == 67 {
            Ok(Instruction::FMADDD)
        } else if funct2 == 0 && opcode == 71 {
            Ok(Instruction::FMSUBS)
        } else if funct2 == 1 && opcode == 71 {
            Ok(Instruction::FMSUBD)
        } else if funct2 == 0 && opcode == 75 {
            Ok(Instruction::FNMSUBS)
        } else if funct2 == 1 && opcode == 75 {
            Ok(Instruction::FNMSUBD)
        } else if funct2 == 0 && opcode == 79 {
            Ok(Instruction::FNMADDS)
        } else if funct2 == 1 && opcode == 79 {
            Ok(Instruction::FNMADDD)
        } else {
            Err(DecodeError { word: code })
        };
        match name {
            Ok(n) => Ok(
                R3Inst {
                    rs1: ((code >> 15) as u8) & 0x1f,
                    rs2: ((code >> 20) as u8) & 0x1f,
                    rs3: ((code >> 27) as u8) & 0x1f,
                    rd: ((code >> 7) as u8) & 0x1f,
                    instName: n,
                },
            ),
            Err(e) => Err(e),
        }
    }
}

impl RegImmInst {
    /// The register fields fit the 32-entry register file.
    pub open spec fn wf(&self) -> bool {
        self.rs1 < 32 && self.rd < 32
    }

    /// What decoding a register-immediate word yields: arithmetic and shift
    /// immediates under opcode 0x13 and their word variants under 0x1B, the
    /// loads under 0x03, `JALR` under 0x67, the fences under 0x0F and the
    /// control/status register instructions under 0x73. The immediate is the
    /// sign-extended top twelve bits, except that shift instructions keep
    /// only the shift amount (six bits, or five for word variants) and the
    /// control/status instructions keep the raw 12-bit register index.
    pub open spec fn spec_new(code: u32) -> Result<RegImmInst, DecodeError> {
        let opcode = code & 0x7f;
        let funct3 = (code >> 12) & 0x7;
        let rd = ((code >> 7) as u8) & 0x1f;
        let rs1 = ((code >> 15) as u8) & 0x1f;
        let imm_se = ((code as i32) >> 20) as i16;
        if opcode == 19 {
            if funct3 == 0 {
                Ok(RegImmInst { rd: rd, rs1: rs1, instName: Instruction::ADDI, imm: imm_se })
            } else if funct3 == 1 {
                Ok(
                    RegImmInst {
                        rd: rd,
                        rs1: rs1,
                        instName: Instruction::SLLI,
                        imm: imm_se & 0x3f,
                    },
                )
            } else if funct3 == 2 {
                Ok(RegImmInst { rd: rd, rs1: rs1, instName: Instruction::SLTI, imm: imm_se })
            } else if funct3 == 3 {
                Ok(RegImmInst { rd: rd, rs1: rs1, instName: Instruction::SLTIU, imm: imm_se })
            } else if funct3 == 4 {
                Ok(RegImmInst { rd: rd, rs1: rs1, instName: Instruction::XORI, imm: imm_se })
            } else if funct3 == 5 {
                if code >> 30 == 1 {
                    Ok(
                        RegImmInst {
                            rd: rd,
                            rs1: rs1,
                            instName: Instruction::SRAI,
                            imm: imm_se & 0x3f,
                        },
                    )
                } else if code >> 30 == 0 {
                    Ok(
                        RegImmInst {
                            rd: rd,
                            rs1: rs1,
                            instName: Instruction::SRLI,
                            imm: imm_se & 0x3f,
                        },
                    )
                } else {
                    Err(DecodeError { word: code })
                }
            } else if funct3 == 6 {
                Ok(RegImmInst { rd: rd, rs1: rs1, instName: Instruction::ORI, imm: imm_se })
            } else {
                Ok(RegImmInst { rd: rd, rs1: rs1, instName: Instruction::ANDI, imm: imm_se })
            }
        } else if opcode == 27 {
            if funct3 == 0 {
                Ok(RegImmInst { rd: rd, rs1: rs1, instName: Instruction::ADDIW, imm: imm_se })
            } else if funct3 == 1 {
                Ok(
                    RegImmInst {
                        rd: rd,
                        rs1: rs1,
                        instName: Instruction::SLLIW,
                        imm: imm_se & 0x1f,
                    },
                )
            } else if funct3 == 5 {
                if code >> 30 == 1 {
                    Ok(
                        RegImmInst {
                            rd: rd,
                            rs1: rs1,
                            instName: Instruction::SRAIW,
                            imm: imm_se & 0x1f,
                        },
                    )
                } else if code >> 30 == 0 {
                    Ok(
                        RegImmInst {
                            rd: rd,
                            rs1: rs1,
                            instName: Instruction::SRLIW,
                            imm: imm_se & 0x1f,
                        },
                    )
                } else {
                    Err(DecodeError { word: code })
                }
            } else {
                Err(DecodeError { word: code })
            }
        } else if opcode == 3 {
            let name = if funct3 == 0 {
                Ok(Instruction::LB)
            } else if funct3 == 1 {
                Ok(Instruction::LH)
            } else if funct3 == 2 {
                Ok(Instruction::LW)
            } else if funct3 == 3 {
                Ok(Instruction::LD)
            } else if funct3 == 4 {
                Ok(Instruction::LBU)
            } else if funct3 == 5 {
                Ok(Instruction::LHU)
            } else if funct3 == 6 {
                Ok(Instruction::LWU)
            } else {
                Err(DecodeError { word: code })
            };
            match name {
                Ok(n) => Ok(RegImmInst { rd: rd, rs1: rs1, instName: n, imm: imm_se }),
                Err(e) => Err(e),
            }
        } else if opcode == 103 {
            Ok(RegImmInst { rd: rd, rs1: rs1, instName: Instruction::JALR, imm: imm_se })
        } else if opcode == 15 {
            Ok(RegImmInst { rd: rd, rs1: rs1, instName: Instruction::FENCE, imm: imm_se })
        } else if opcode == 115 {
            let name = if funct3 == 1 {
                Ok(Instruction::CSRRW)
            } else if funct3 == 2 {
                Ok(Instruction::CSRRS)
            } else if funct3 == 3 {
                Ok(Instruction::CSRRC)
            } else if funct3 == 5 {
                Ok(Instruction::CSRRWI)
            } else if funct3 == 6 {
                Ok(Instruction::CSRRSI)
            } else if funct3 == 7 {
                Ok(Instruction::CSRRCI)
            } else {
                Err(DecodeError { word: code })
            };
            match name {
                Ok(n) => Ok(
                    RegImmInst { rd: rd, rs1: rs1, instName: n, imm: (code >> 20) as i16 },
                ),
                Err(e) => Err(e),
            }
        } else {
            Err(DecodeError { word: code })
        }
    }

    /// Decodes a register-immediate word.
    pub fn New(code: u32) -> (r: Result<RegImmInst, DecodeError>)
        ensures
            r == Self::spec_new(code),
            r matches Ok(i) ==> i.wf(),
    {
        proof {
            lemma_mask5((code >> 7) as u8);
            lemma_mask5((code >> 15) as u8);
        }
        let opcode = code & 0x7f;
        let funct3 = (code >> 12) & 0x7;
        let rd = ((code >> 7) as u8) & 0x1f;
        let rs1 = ((code >> 15) as u8) & 0x1f;
        let imm_se = ((code as i32) >> 20) as i16;
        if opcode == 19 {
            if funct3 == 0 {
                Ok(RegImmInst { rd: rd, rs1: rs1, instName: Instruction::ADDI, imm: imm_se })
            } else if funct3 == 1 {
                Ok(
                    RegImmInst {
                        rd: rd,
                        rs1: rs1,
                        instName: Instruction::SLLI,
                        imm: imm_se & 0x3f,
                    },
                )
            } else if funct3 == 2 {
                Ok(RegImmInst { rd: rd, rs1: rs1, instName: Instruction::SLTI, imm: imm_se })
            } else if funct3 == 3 {
                Ok(RegImmInst { rd: rd, rs1: rs1, instName: Instruction::SLTIU, imm: imm_se })
            } else if funct3 == 4 {
                Ok(RegImmInst { rd: rd, rs1: rs1, instName: Instruction::XORI, imm: imm_se })
            } else if funct3 == 5 {
                if code >> 30 == 1 {
                    Ok(
                        RegImmInst {
                            rd: rd,
                            rs1: rs1,
                            instName: Instruction::SRAI,
                            imm: imm_se & 0x3f,
                        },
                    )
                } else if code >> 30 == 0 {
                    Ok(
                        RegImmInst {
                            rd: rd,
                            rs1: rs1,
                            instName: Instruction::SRLI,
                            imm: imm_se & 0x3f,
                        },
                    )
                } else {
                    Err(DecodeError { word: code })
                }
            } else if funct3 == 6 {
                Ok(RegImmInst { rd: rd, rs1: rs1, instName: Instruction::ORI, imm: imm_se })
            } else {
                Ok(RegImmInst { rd: rd, rs1: rs1, instName: Instruction::ANDI, imm: imm_se })
            }
        } else if opcode == 27 {
            if funct3 == 0 {
                Ok(RegImmInst { rd: rd, rs1: rs1, instName: Instruction::ADDIW, imm: imm_se })
            } else if funct3 == 1 {
                Ok(
                    RegImmInst {
                        rd: rd,
                        rs1: rs1,
                        instName: Instruction::SLLIW,
                        imm: imm_se & 0x1f,
                    },
                )
            } else if funct3 == 5 {
                if code >> 30 == 1 {
                    Ok(
                        RegImmInst {
                            rd: rd,
                            rs1: rs1,
                            instName: Instruction::SRAIW,
                            imm: imm_se & 0x1f,
                        },
                    )
                } else if code >> 30 == 0 {
                    Ok(
                        RegImmInst {
                            rd: rd,
                            rs1: rs1,
                            instName: Instruction::SRLIW,
                            imm: imm_se & 0x1f,
                        },
                    )
                } else {
                    Err(DecodeError { word: code })
                }
            } else {
                Err(DecodeError { word: code })
            }
        } else if opcode == 3 {
            let name = if funct3 == 0 {
                Ok(Instruction::LB)
            } else if funct3 == 1 {
                Ok(Instruction::LH)
            } else if funct3 == 2 {
                Ok(Instruction::LW)
            } else if funct3 == 3 {
                Ok(Instruction::LD)
            } else if funct3 == 4 {
                Ok(Instruction::LBU)
            } else if funct3 == 5 {
                Ok(Instruction::LHU)
            } else if funct3 == 6 {
                Ok(Instruction::LWU)
            } else {
                Err(DecodeError { word: code })
            };
            match name {
                Ok(n) => Ok(RegImmInst { rd: rd, rs1: rs1, instName: n, imm: imm_se }),
                Err(e) => Err(e),
            }
        } else if opcode == 103 {
            Ok(RegImmInst { rd: rd, rs1: rs1, instName: Instruction::JALR, imm: imm_se })
        } else if opcode == 15 {
            // The word selects `FENCE` or `FENCE.I`; a single-context engine
            // orders nothing, so both decode to the plain fence.
            Ok(RegImmInst { rd: rd, rs1: rs1, instName: Instruction::FENCE, imm: imm_se })
        } else if opcode == 115 {
            let name = if funct3 == 1 {
                Ok(Instruction::CSRRW)
            } else if funct3 == 2 {
                Ok(Instruction::CSRRS)
            } else if funct3 == 3 {
                Ok(Instruction::CSRRC)
            } else if funct3 == 5 {
                Ok(Instruction::CSRRWI)
            } else if funct3 == 6 {
                Ok(Instruction::CSRRSI)
            } else if funct3 == 7 {
                Ok(Instruction::CSRRCI)
            } else {
                Err(DecodeError { word: code })
            };
            match name {
                Ok(n) => Ok(
                    RegImmInst { rd: rd, rs1: rs1, instName: n, imm: (code >> 20) as i16 },
                ),
                Err(e) => Err(e),
            }
        } else {
            Err(DecodeError { word: code })
        }
    }
}

impl StoreInst {
    /// The register fields fit the 32-entry register file.
    pub open spec fn wf(&self) -> bool {
        self.rs1 < 32 && self.rs2 < 32
    }

    /// What decoding a store word yields: funct3 selects the width, and the
    /// immediate is put back together from its low five bits at [11:7] and
    /// its sign-carrying high seven bits at [31:25].
    pub open spec fn spec_new(code: u32) -> Result<StoreInst, DecodeError> {
        let funct3 = (code >> 12) & 0x7;
        let name = if funct3 == 0 {
            Ok(Instruction::SB)
        } else if funct3 == 1 {
            Ok(Instruction::SH)
        } else if funct3 == 2 {
            Ok(Instruction::SW)
        } else if funct3 == 3 {
            Ok(Instruction::SD)
        } else {
            Err(DecodeError { word: code })
        };
        match name {
            Ok(n) => Ok(
                StoreInst {
                    instName: n,
                    rs1: ((code >> 15) as u8) & 0x1f,
                    rs2: ((code >> 20) as u8) & 0x1f,
                    imm: (((code >> 7) & 0x1f) as i16) | ((((code as i32) >> 25) << 5) as i16),
                },
            ),
            Err(e) => Err(e),
        }
    }

    /// Decodes a store word.
    pub fn New(code: u32) -> (r: Result<StoreInst, DecodeError>)
        ensures
            r == Self::spec_new(code),
            r matches Ok(i) ==> i.wf(),
    {
        proof {
            lemma_mask5((code >> 15) as u8);
            lemma_mask5((code >> 20) as u8);
        }
        let funct3 = (code >> 12) & 0x7;
        let name = if funct3 == 0 {
            Ok(Instruction::SB)
        } else if funct3 == 1 {
            Ok(Instruction::SH)
        } else if funct3 == 2 {
            Ok(Instruction::SW)
        } else if funct3 == 3 {
            Ok(Instruction::SD)
        } else {
            Err(DecodeError { word: code })
        };
        match name {
            Ok(n) => Ok(
                StoreInst {
                    instName: n,
                    rs1: ((code >> 15) as u8) & 0x1f,
                    rs2: ((code >> 20) as u8) & 0x1f,
                    imm: ((code >> 7) & 0x1f) as i16 | ((((code as i32) >> 25) << 5) as i16),
                },
            ),
            Err(e) => Err(e),
        }
    }
}

impl BranchInst {
    /// The register fields fit the 32-entry register file.
    pub open spec fn wf(&self) -> bool {
        self.rs1 < 32 && self.rs2 < 32
    }

    /// The pre-halved branch offset put back together from its four pieces:
    /// bit 7 of the word carries bit 11 of the offset, bits [11:8] carry
    /// [4:1], bits [30:25] carry [10:5] and bit 31 carries the sign, which is
    /// spread over the unused high bits of the carrier.
    pub open spec fn spec_imm(code: u32) -> i16 {
        let bit11 = ((code >> 7) & 0x1) as i16;
        let bit1to4 = ((code >> 8) & 0xf) as i16;
        let bit5to10 = ((code >> 25) & 0x3f) as i16;
        let bit12 = ((code >> 31) & 0x1) as i16;
        let total = bit1to4 | (bit5to10 << 4) | (bit11 << 10) | (bit12 << 15);
        if bit12 == 1 {
            total | (0xfi16 << 11)
        } else {
            total
        }
    }

    /// What decoding a branch word yields.
    pub open spec fn spec_new(code: u32) -> Result<BranchInst, DecodeError> {
        let funct3 = (code >> 12) & 0x7;
        let name = if funct3 == 0 {
            Ok(Instruction::BEQ)
        } else if funct3 == 1 {
            Ok(Instruction::BNE)
        } else if funct3 == 4 {
            Ok(Instruction::BLT)
        } else if funct3 == 5 {
            Ok(Instruction::BGE)
        } else if funct3 == 6 {
            Ok(Instruction::BLTU)
        } else if funct3 == 7 {
            Ok(Instruction::BGEU)
        } else {
            Err(DecodeError { word: code })
        };
        match name {
            Ok(n) => Ok(
                BranchInst {
                    instName: n,
                    rs1: ((code >> 15) as u8) & 0x1f,
                    rs2: ((code >> 20) as u8) & 0x1f,
                    imm: Self::spec_imm(code),
                },
            ),
            Err(e) => Err(e),
        }
    }

    /// Decodes a branch word.
    pub fn New(code: u32) -> (r: Result<BranchInst, DecodeError>)
        ensures
            r == Self::spec_new(code),
            r matches Ok(i) ==> i.wf(),
    {
        proof {
            lemma_mask5((code >> 15) as u8);
            lemma_mask5((code >> 20) as u8);
        }
        let funct3 = (code >> 12) & 0x7;
        let name = if funct3 == 0 {
            Ok(Instruction::BEQ)
        } else if funct3 == 1 {
            Ok(Instruction::BNE)
        } else if funct3 == 4 {
            Ok(Instruction::BLT)
        } else if funct3 == 5 {
            Ok(Instruction::BGE)
        } else if funct3 == 6 {
            Ok(Instruction::BLTU)
        } else if funct3 == 7 {
            Ok(Instruction::BGEU)
        } else {
            Err(DecodeError { word: code })
        };
        let bit11 = ((code >> 7) & 0x1) as i16;
        let bit1to4 = ((code >> 8) & 0xf) as i16;
        let bit5to10 = ((code >> 25) & 0x3f) as i16;
        let bit12 = ((code >> 31) & 0x1) as i16;
        let mut total: i16 = bit1to4;
        total = total | (bit5to10 << 4);
        total = total | (bit11 << 10);
        total = total | (bit12 << 15);
        if bit12 == 1 {
            total = total | (0xfi16 << 11);
        }
        match name {
            Ok(n) => Ok(
                BranchInst {
                    instName: n,
                    rs1: ((code >> 15) as u8) & 0x1f,
                    rs2: ((code >> 20) as u8) & 0x1f,
                    imm: total,
                },
            ),
            Err(e) => Err(e),
        }
    }
}

impl JumpInst {
    /// The register field fits the 32-entry register file.
    pub open spec fn wf(&self) -> bool {
        self.rd < 32
    }

    /// The pre-halved jump offset put back together from its four pieces:
    /// bits [30:21] of the word carry bits [10:1] of the offset, bit 20
    /// carries bit 11, bits [19:12] carry [19:12] and bit 31 carries the
    /// sign, which is spread over the unused high bits of the carrier.
    pub open spec fn spec_imm(code: u32) -> i32 {
        let bit12to19 = ((code >> 12) & 0xff) as i32;
        let bit11 = ((code >> 20) & 0x1) as i32;
        let bit1to10 = ((code >> 21) & 0x3ff) as i32;
        let bit20 = ((code >> 31) & 0x1) as i32;
        let total = bit1to10 | (bit11 << 10) | (bit12to19 << 11) | (bit20 << 31);
        if bit20 == 1 {
            total | (0xfff << 19)
        } else {
            total
        }
    }

    /// What decoding a jump word yields; the format holds `JAL` alone, so
    /// every word under the jump opcode decodes.
    pub open spec fn spec_new(code: u32) -> JumpInst {
        JumpInst {
            instName: Instruction::JAL,
            rd: ((code >> 7) as u8) & 0x1f,
            imm: Self::spec_imm(code),
        }
    }

    /// Decodes a jump (`JAL`) word.
    pub fn New(code: u32) -> (r: JumpInst)
        ensures
            r == Self::spec_new(code),
            r.wf(),
    {
        proof {
            lemma_mask5((code >> 7) as u8);
        }
        let bit12to19 = ((code >> 12) & 0xff) as i32;
        let bit11 = ((code >> 20) & 0x1) as i32;
        let bit1to10 = ((code >> 21) & 0x3ff) as i32;
        let bit20 = ((code >> 31) & 0x1) as i32;
        let mut total: i32 = bit1to10;
        total = total | (bit11 << 10);
        total = total | (bit12to19 << 11);
        total = total | (bit20 << 31);
        if bit20 == 1 {
            total = total | (0xfff << 19);
        }
        JumpInst { instName: Instruction::JAL, rd: ((code >> 7) as u8) & 0x1f, imm: total }
    }
}

impl InstructionFormat {
    /// The register fields of every variant fit the 32-entry register file.
    pub open spec fn wf(&self) -> bool {
        match *self {
            InstructionFormat::R(i) => i.wf(),
            InstructionFormat::R4(i) => i.wf(),
            InstructionFormat::I(i) => i.wf(),
            InstructionFormat::S(i) => i.wf(),
            InstructionFormat::B(i) => i.wf(),
            InstructionFormat::U(i) => i.wf(),
            InstructionFormat::J(i) => i.wf(),
        }
    }
}

} // verus!
